use vstd::prelude::*;
use vstd::string::StringExecFns;
use crate::catalogue::{catalogue_properties, get_config_option_info};
use crate::configuration::{ConfigurationOptionType, MinecraftServerConfiguration};

verus! {

/// The character of a decimal digit.
pub open spec fn digit_char(d: nat) -> char {
    ((48 + d) as u8) as char
}

/// `n` written in decimal, without sign or leading zeros.
pub open spec fn decimal(n: nat) -> Seq<char>
    decreases n,
{
    if n < 10 {
        seq![digit_char(n)]
    } else {
        decimal(n / 10).push(digit_char(n % 10))
    }
}

/// Relies on `u16`'s `to_string` (its `Display`): the number in decimal,
/// without sign or leading zeros.
#[verifier::external_body]
pub(crate) fn decimal_text(n: u16) -> (r: String)
    ensures
        r@ == decimal(n as nat),
{
    n.to_string()
}

/// The command-line flag that passes the value `v` of the field `p` to the
/// server, if any: a true boolean gives `--p` (the GUI option instead gives
/// `--nogui` when it is false), a present value gives `--p value`, and an
/// absent one gives nothing.
pub open spec fn flag_of(p: Seq<char>, v: ConfigurationOptionType) -> Option<Seq<char>> {
    match v {
        ConfigurationOptionType::Bool(b) => {
            if p == "gui"@ {
                if b {
                    None
                } else {
                    Some("--nogui"@)
                }
            } else if b {
                Some("--"@ + p)
            } else {
                None
            }
        },
        ConfigurationOptionType::OptionU16(Some(n)) => Some("--"@ + p + " "@ + decimal(n as nat)),
        ConfigurationOptionType::OptionString(Some(s)) => Some("--"@ + p + " "@ + s@),
        _ => None,
    }
}

/// The flags of the fields `props` in order, each after a space.
pub open spec fn flags_text(c: MinecraftServerConfiguration, props: Seq<Seq<char>>) -> Seq<char>
    decreases props.len(),
{
    if props.len() == 0 {
        Seq::empty()
    } else {
        let p = props.last();
        flags_text(c, props.drop_last()) + match flag_of(p, c.spec_get(p)) {
            Some(f) => " "@ + f,
            None => Seq::empty(),
        }
    }
}

/// The command that launches the server jar with the flags of every
/// catalogue option.
pub open spec fn command_of(c: MinecraftServerConfiguration, jar: Seq<char>) -> Seq<char> {
    "java -jar "@ + jar + flags_text(c, catalogue_properties())
}

/// The command-line flag for the value `value` of the field `property`.
pub fn cli_flag(property: &String, value: ConfigurationOptionType) -> (r: Option<String>)
    ensures
        r matches Some(f) ==> flag_of(property@, value) == Some(f@),
        r is None ==> flag_of(property@, value) is None,
{
    let gui = "gui".to_owned();
    match value {
        ConfigurationOptionType::Bool(b) => {
            if property.eq(&gui) {
                if b {
                    None
                } else {
                    let r = "--nogui".to_owned();
                    Some(r)
                }
            } else if b {
                let mut r = "--".to_owned();
                r.append(property.as_str());
                Some(r)
            } else {
                None
            }
        },
        ConfigurationOptionType::OptionU16(Some(n)) => {
            let mut r = "--".to_owned();
            r.append(property.as_str());
            r.append(" ");
            let digits = decimal_text(n);
            r.append(digits.as_str());
            Some(r)
        },
        ConfigurationOptionType::OptionString(Some(s)) => {
            let mut r = "--".to_owned();
            r.append(property.as_str());
            r.append(" ");
            r.append(s.as_str());
            Some(r)
        },
        _ => None,
    }
}

/// The shell command that starts the server from `jar_filename` with the
/// configuration's flags, in catalogue order.
pub fn server_command(configuration: &MinecraftServerConfiguration, jar_filename: &String) -> (r:
    String)
    ensures
        r@ == command_of(*configuration, jar_filename@),
{
    let options = get_config_option_info();
    let mut command = "java -jar ".to_owned();
    command.append(jar_filename.as_str());
    let mut i: usize = 0;
    while i < options.len()
        invariant
            i <= options@.len(),
            options@.len() == catalogue_properties().len(),
            forall|k: int|
                0 <= k < options@.len() ==> (#[trigger] options@[k]).property@
                    == catalogue_properties()[k],
            command@ == "java -jar "@ + jar_filename@ + flags_text(
                *configuration,
                catalogue_properties().take(i as int),
            ),
        decreases options.len() - i,
    {
        let option = &options[i];
        let value = configuration.get(option.property.clone());
        let flag = cli_flag(&option.property, value);
        proof {
            let props = catalogue_properties();
            assert(props.take(i + 1).drop_last() =~= props.take(i as int));
            assert(props.take(i + 1).last() == props[i as int]);
        }
        match flag {
            Some(f) => {
                command.append(" ");
                command.append(f.as_str());
            },
            None => {},
        }
        proof {
            let props = catalogue_properties();
            assert(command@ =~= "java -jar "@ + jar_filename@ + flags_text(*configuration, props.take(i + 1)));
        }
        i += 1;
    }
    assert(catalogue_properties().take(options@.len() as int) =~= catalogue_properties());
    command
}

} // verus!
