use vstd::prelude::*;
use crate::configuration::{
    ConfigurationOptionType, MinecraftServerConfiguration, is_property_name,
};
use crate::machine::{
    AppState, ConfigurationOption, ConfigurationOptionTypeFlag, ConfigurationOptionTypeFlags,
    EditorEvent, EditorState, Event, Machine, Payload, is_valid_shape, lemma_commit,
};

verus! {

/// The fields that the catalogue offers for editing, in menu order.
pub open spec fn catalogue_properties() -> Seq<Seq<char>> {
    seq![
        "bonusChest"@,
        "demo"@,
        "eraseCache"@,
        "forceUpgrade"@,
        "initSettings"@,
        "gui"@,
        "port"@,
        "safeMode"@,
        "singleplayer"@,
        "universe"@,
        "world"@,
    ]
}

/// The names shown for the catalogue's options, in menu order.
pub open spec fn catalogue_names() -> Seq<Seq<char>> {
    seq![
        "Bonus chest"@,
        "Demo mode"@,
        "Erase the cache"@,
        "Force an upgrade"@,
        "Initialize server settings"@,
        "GUI mode"@,
        "Port"@,
        "Safe mode"@,
        "Single-player mode"@,
        "Universe name"@,
        "World name"@,
    ]
}

pub open spec fn boolean_shape() -> Set<ConfigurationOptionTypeFlag> {
    set![ConfigurationOptionTypeFlag::Bool]
}

pub open spec fn optional_number_shape() -> Set<ConfigurationOptionTypeFlag> {
    set![ConfigurationOptionTypeFlag::Option, ConfigurationOptionTypeFlag::U16]
}

pub open spec fn optional_text_shape() -> Set<ConfigurationOptionTypeFlag> {
    set![ConfigurationOptionTypeFlag::Option, ConfigurationOptionTypeFlag::String]
}

/// The shapes of the catalogue's options, in menu order: the port is an
/// optional number, the universe and the world optional texts, and the
/// rest booleans.
pub open spec fn catalogue_shapes() -> Seq<Set<ConfigurationOptionTypeFlag>> {
    seq![
        boolean_shape(),
        boolean_shape(),
        boolean_shape(),
        boolean_shape(),
        boolean_shape(),
        boolean_shape(),
        optional_number_shape(),
        boolean_shape(),
        boolean_shape(),
        optional_text_shape(),
        optional_text_shape(),
    ]
}

fn entry(
    property: &str,
    name: &str,
    description: &str,
    type_flags: ConfigurationOptionTypeFlags,
) -> (r: ConfigurationOption)
    ensures
        r.property@ == property@,
        r.name@ == name@,
        r.description@ == description@,
        r.type_flags == type_flags,
{
    ConfigurationOption {
        property: property.to_owned(),
        name: name.to_owned(),
        description: description.to_owned(),
        type_flags,
    }
}

fn boolean_flags() -> (r: ConfigurationOptionTypeFlags)
    ensures
        r@ == boolean_shape(),
{
    let r = ConfigurationOptionTypeFlags::empty().with(ConfigurationOptionTypeFlag::Bool);
    assert(r@ =~= boolean_shape());
    r
}

fn optional_flags(scalar: ConfigurationOptionTypeFlag) -> (r: ConfigurationOptionTypeFlags)
    ensures
        r@ == set![ConfigurationOptionTypeFlag::Option, scalar],
{
    let r = ConfigurationOptionTypeFlags::empty().with(ConfigurationOptionTypeFlag::Option).with(
        scalar,
    );
    assert(r@ =~= set![ConfigurationOptionTypeFlag::Option, scalar]);
    r
}

/// The catalogue of editable options, in menu order, each with the name and
/// description shown for it.
pub fn get_config_option_info() -> (r: Vec<ConfigurationOption>)
    ensures
        r@.len() == catalogue_properties().len(),
        forall|i: int|
            0 <= i < r@.len() ==> {
                &&& (#[trigger] r@[i]).property@ == catalogue_properties()[i]
                &&& r@[i].name@ == catalogue_names()[i]
                &&& r@[i].type_flags@ == catalogue_shapes()[i]
            },
{
    let mut r: Vec<ConfigurationOption> = Vec::new();
    r.push(
        entry(
            "bonusChest",
            "Bonus chest",
            "Whether or not to add the bonus chest when creating a new world.",
            boolean_flags(),
        ),
    );
    r.push(
        entry(
            "demo",
            "Demo mode",
            "Shows the players a demo pop-up, players can't place/break/eat once the demo expires.",
            boolean_flags(),
        ),
    );
    r.push(
        entry("eraseCache", "Erase the cache", "Erases the lighting caches, etc.", boolean_flags()),
    );
    r.push(
        entry(
            "forceUpgrade",
            "Force an upgrade",
            "Forces an upgrade on all the chunks.",
            boolean_flags(),
        ),
    );
    r.push(
        entry(
            "initSettings",
            "Initialize server settings",
            "Initializes 'server.properties' and 'eula.txt', then quits.",
            boolean_flags(),
        ),
    );
    r.push(
        entry(
            "gui",
            "GUI mode",
            "When enabled, opens the GUI upon launch of the server.",
            boolean_flags(),
        ),
    );
    r.push(
        entry(
            "port",
            "Port",
            "Which port to listen on, overrides the server.properties value.",
            optional_flags(ConfigurationOptionTypeFlag::U16),
        ),
    );
    r.push(
        entry("safeMode", "Safe mode", "Loads level with vanilla data pack only.", boolean_flags()),
    );
    r.push(
        entry(
            "singleplayer",
            "Single-player mode",
            "Runs the server in offline mode without authentication. This is insecure, do not use this when online.",
            boolean_flags(),
        ),
    );
    r.push(
        entry(
            "universe",
            "Universe name",
            "The folder name of the universe that you want to use that contains all of your worlds.",
            optional_flags(ConfigurationOptionTypeFlag::String),
        ),
    );
    r.push(
        entry(
            "world",
            "World name",
            "The folder name for the world you want to run.",
            optional_flags(ConfigurationOptionTypeFlag::String),
        ),
    );
    r
}

/// Every option of the catalogue has a valid shape, so picking any of them
/// from the menu keeps the machine among its reachable states.
pub proof fn lemma_catalogue_shapes_valid(i: int)
    requires
        0 <= i < catalogue_shapes().len(),
    ensures
        is_valid_shape(catalogue_shapes()[i]),
{
}

/// Whether a value of `v`'s variant is what an option of shapes `flags` edits.
pub open spec fn value_fits_shape(v: ConfigurationOptionType, flags: Set<ConfigurationOptionTypeFlag>) -> bool {
    match v {
        ConfigurationOptionType::Bool(_) => flags.contains(ConfigurationOptionTypeFlag::Bool),
        ConfigurationOptionType::OptionU16(_) => flags.contains(ConfigurationOptionTypeFlag::U16),
        ConfigurationOptionType::OptionString(_) => flags.contains(
            ConfigurationOptionTypeFlag::String,
        ),
    }
}

/// Each catalogue option names a field of the record, and the field holds
/// values of the shape that the option declares.
pub proof fn lemma_catalogue_names_fields(c: MinecraftServerConfiguration, i: int)
    requires
        0 <= i < catalogue_properties().len(),
    ensures
        is_property_name(catalogue_properties()[i]),
        value_fits_shape(c.spec_get(catalogue_properties()[i]), catalogue_shapes()[i]),
{
    reveal_strlit("bonusChest");
    reveal_strlit("demo");
    reveal_strlit("eraseCache");
    reveal_strlit("forceUpgrade");
    reveal_strlit("initSettings");
    reveal_strlit("gui");
    reveal_strlit("port");
    reveal_strlit("safeMode");
    reveal_strlit("singleplayer");
    reveal_strlit("universe");
    reveal_strlit("world");
    // Names of one length differ in their first character; the rest differ in length.
    assert("port"@ != "demo"@) by {
        assert("port"@[0] != "demo"@[0]);
    }
    assert("universe"@ != "safeMode"@) by {
        assert("universe"@[0] != "safeMode"@[0]);
    }
    assert("port"@.len() != "bonusChest"@.len());
    assert("port"@.len() != "eraseCache"@.len());
    assert("port"@.len() != "forceUpgrade"@.len());
    assert("port"@.len() != "initSettings"@.len());
    assert("port"@.len() != "gui"@.len());
    assert("safeMode"@.len() != "port"@.len());
    assert("singleplayer"@.len() != "port"@.len());
    assert("universe"@.len() != "bonusChest"@.len());
    assert("universe"@.len() != "demo"@.len());
    assert("universe"@.len() != "eraseCache"@.len());
    assert("universe"@.len() != "forceUpgrade"@.len());
    assert("universe"@.len() != "initSettings"@.len());
    assert("universe"@.len() != "gui"@.len());
    assert("universe"@.len() != "port"@.len());
    assert("universe"@.len() != "singleplayer"@.len());
    assert("world"@.len() != "bonusChest"@.len());
    assert("world"@.len() != "demo"@.len());
    assert("world"@.len() != "eraseCache"@.len());
    assert("world"@.len() != "forceUpgrade"@.len());
    assert("world"@.len() != "initSettings"@.len());
    assert("world"@.len() != "gui"@.len());
    assert("world"@.len() != "port"@.len());
    assert("world"@.len() != "safeMode"@.len());
    assert("world"@.len() != "singleplayer"@.len());
    assert("world"@.len() != "universe"@.len());
}

/// While a catalogue option is edited, submitting the value that the editor
/// asks for makes its field read back exactly that value, leaves every other
/// field as it was, clears the selection and returns to the choice menu.
pub proof fn lemma_commit_catalogue_option(m: Machine, v: ConfigurationOptionType, i: int)
    requires
        m.wf(),
        m.accepts(
            Event::EditorEvent(EditorEvent::SubmitValue),
            Some(Payload::ConfigurationOptionType(v)),
        ),
        m.editor_state != Some(EditorState::SelectValueOrNone),
        0 <= i < catalogue_properties().len(),
        m.selected_configuration_option.unwrap().property@ == catalogue_properties()[i],
        m.selected_configuration_option.unwrap().type_flags@ == catalogue_shapes()[i],
    ensures
        ({
            let m1 = m.next(
                Event::EditorEvent(EditorEvent::SubmitValue),
                Some(Payload::ConfigurationOptionType(v)),
            );
            let p = catalogue_properties()[i];
            &&& m1.configuration.spec_get(p) == v
            &&& forall|q: Seq<char>|
                q != p ==> #[trigger] m1.configuration.spec_get(q) == m.configuration.spec_get(q)
            &&& m1.selected_configuration_option.is_none()
            &&& m1.editor_state.is_none()
            &&& m1.state == AppState::ChoiceMenu
        }),
{
    lemma_catalogue_names_fields(m.configuration, i);
    lemma_catalogue_shapes_valid(i);
    lemma_commit(m, v);
}

} // verus!
