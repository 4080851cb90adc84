use vstd::prelude::*;
use vstd::string::StringExecFns;
use crate::configuration::{ConfigurationOptionType, MinecraftServerConfiguration};
use crate::launch::{decimal, decimal_text};
use crate::machine::ConfigurationOption;

verus! {

/// How a value is shown in the menu: a boolean as enabled or disabled, a
/// present value as itself, an absent one as the default.
pub open spec fn value_label(v: ConfigurationOptionType) -> Seq<char> {
    match v {
        ConfigurationOptionType::Bool(true) => "Enabled"@,
        ConfigurationOptionType::Bool(false) => "Disabled"@,
        ConfigurationOptionType::OptionU16(Some(n)) => decimal(n as nat),
        ConfigurationOptionType::OptionString(Some(s)) => s@,
        _ => "default"@,
    }
}

/// The menu entry of an option: its name, then its current value in parentheses.
pub open spec fn option_label(o: ConfigurationOption, c: MinecraftServerConfiguration) -> Seq<
    char,
> {
    o.name@ + " ("@ + value_label(c.spec_get(o.property@)) + ")"@
}

fn value_text(v: ConfigurationOptionType) -> (r: String)
    ensures
        r@ == value_label(v),
{
    match v {
        ConfigurationOptionType::Bool(true) => "Enabled".to_owned(),
        ConfigurationOptionType::Bool(false) => "Disabled".to_owned(),
        ConfigurationOptionType::OptionU16(Some(n)) => decimal_text(n),
        ConfigurationOptionType::OptionString(Some(s)) => s,
        _ => "default".to_owned(),
    }
}

/// The entries of the choice menu: starting the server, exiting, then one
/// entry per option with its current value.
pub fn get_names(
    config_option_info: Vec<ConfigurationOption>,
    configuration: MinecraftServerConfiguration,
) -> (r: Vec<String>)
    ensures
        r@.len() == config_option_info@.len() + 2,
        r@[0]@ == "Start server now"@,
        r@[1]@ == "Exit"@,
        forall|i: int|
            0 <= i < config_option_info@.len() ==> #[trigger] r@[i + 2]@ == option_label(
                config_option_info@[i],
                configuration,
            ),
{
    let mut r: Vec<String> = Vec::new();
    r.push("Start server now".to_owned());
    r.push("Exit".to_owned());
    let mut i: usize = 0;
    while i < config_option_info.len()
        invariant
            i <= config_option_info@.len(),
            r@.len() == i + 2,
            r@[0]@ == "Start server now"@,
            r@[1]@ == "Exit"@,
            forall|k: int|
                0 <= k < i ==> #[trigger] r@[k + 2]@ == option_label(
                    config_option_info@[k],
                    configuration,
                ),
        decreases config_option_info.len() - i,
    {
        let option = &config_option_info[i];
        let value = configuration.get(option.property.clone());
        let mut label = option.name.clone();
        label.append(" (");
        let shown = value_text(value);
        label.append(shown.as_str());
        label.append(")");
        r.push(label);
        i += 1;
    }
    r
}

} // verus!
