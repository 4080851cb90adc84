use minecraft_server_cli::catalogue::get_config_option_info;
use minecraft_server_cli::configuration::{ConfigurationOptionType, MinecraftServerConfiguration};
use minecraft_server_cli::machine::{
    AppEvent, AppState, ConfigurationOption, ConfigurationOptionTypeFlag,
    ConfigurationOptionTypeFlags, EditorEvent, EditorState, Event, Machine, Payload,
};

fn fresh() -> Machine {
    Machine::new(MinecraftServerConfiguration::default())
}

fn option_named(property: &str) -> ConfigurationOption {
    get_config_option_info()
        .into_iter()
        .find(|o| o.property == property)
        .unwrap()
}

fn option_with(flags: &[ConfigurationOptionTypeFlag], property: &str) -> ConfigurationOption {
    let mut type_flags = ConfigurationOptionTypeFlags::empty();
    for f in flags {
        type_flags = type_flags.with(*f);
    }
    ConfigurationOption {
        property: property.to_string(),
        name: property.to_string(),
        description: String::new(),
        type_flags,
    }
}

fn select(m: &mut Machine, o: ConfigurationOption) {
    m.dispatch(
        Event::AppEvent(AppEvent::SelectedOption),
        Some(Payload::ConfigurationOption(o)),
    );
}

fn submit(m: &mut Machine, v: ConfigurationOptionType) {
    m.dispatch(
        Event::EditorEvent(EditorEvent::SubmitValue),
        Some(Payload::ConfigurationOptionType(v)),
    );
}

#[test]
fn port_scenario_sets_port() {
    let mut m = fresh();
    assert_eq!(m.state, AppState::ChoiceMenu);
    select(&mut m, option_named("port"));
    assert_eq!(m.state, AppState::EditingConfiguration);
    assert_eq!(m.editor_state, Some(EditorState::SelectValueOrNone));
    m.dispatch(Event::EditorEvent(EditorEvent::SelectedValue), None);
    assert_eq!(m.editor_state, Some(EditorState::NumberInput));
    submit(&mut m, ConfigurationOptionType::OptionU16(Some(25565)));
    assert_eq!(m.configuration.port, Some(25565));
    assert_eq!(m.state, AppState::ChoiceMenu);
    assert!(m.selected_configuration_option.is_none());
    assert_eq!(m.editor_state, None);
}

#[test]
fn start_then_exit() {
    let mut m = fresh();
    m.dispatch(Event::AppEvent(AppEvent::StartServer), None);
    assert_eq!(m.state, AppState::Running);
    m.dispatch(Event::AppEvent(AppEvent::Exit), None);
    assert_eq!(m.state, AppState::Exited);
    m.dispatch(Event::AppEvent(AppEvent::StartServer), None);
    assert_eq!(m.state, AppState::Exited);
}

#[test]
fn exit_from_menu() {
    let mut m = fresh();
    m.dispatch(Event::AppEvent(AppEvent::Exit), None);
    assert_eq!(m.state, AppState::Exited);
    assert_eq!(m.editor_state, None);
}

#[test]
fn optional_text_asks_for_text() {
    let mut m = fresh();
    select(&mut m, option_named("world"));
    assert_eq!(m.editor_state, Some(EditorState::SelectValueOrNone));
    m.dispatch(Event::EditorEvent(EditorEvent::SelectedValue), None);
    assert_eq!(m.editor_state, Some(EditorState::TextInput));
    submit(&mut m, ConfigurationOptionType::OptionString(Some("overworld".to_string())));
    assert_eq!(m.configuration.world, Some("overworld".to_string()));
    assert_eq!(m.state, AppState::ChoiceMenu);
}

#[test]
fn scalar_shapes_pick_their_editor() {
    let cases = [
        (vec![ConfigurationOptionTypeFlag::Bool], EditorState::SelectOnOff),
        (vec![ConfigurationOptionTypeFlag::U16], EditorState::NumberInput),
        (vec![ConfigurationOptionTypeFlag::String], EditorState::TextInput),
        (
            vec![ConfigurationOptionTypeFlag::Option, ConfigurationOptionTypeFlag::U16],
            EditorState::SelectValueOrNone,
        ),
    ];
    for (flags, expected) in cases {
        let mut m = fresh();
        select(&mut m, option_with(&flags, "demo"));
        assert_eq!(m.state, AppState::EditingConfiguration);
        assert_eq!(m.editor_state, Some(expected));
    }
}

#[test]
fn boolean_commit_writes_field() {
    let mut m = fresh();
    select(&mut m, option_named("demo"));
    assert_eq!(m.editor_state, Some(EditorState::SelectOnOff));
    submit(&mut m, ConfigurationOptionType::Bool(true));
    assert!(m.configuration.demo);
    assert!(m.configuration.bonusChest);
    assert!(!m.configuration.gui);
    assert_eq!(m.state, AppState::ChoiceMenu);
    assert!(m.selected_configuration_option.is_none());
}

#[test]
fn select_none_clears_port() {
    let mut m = fresh();
    m.configuration.port = Some(8080);
    select(&mut m, option_named("port"));
    m.dispatch(Event::EditorEvent(EditorEvent::SelectedNone), None);
    assert_eq!(m.configuration.port, None);
    assert_eq!(m.state, AppState::ChoiceMenu);
    assert_eq!(m.editor_state, None);
    assert!(m.selected_configuration_option.is_none());
}

#[test]
fn select_none_clears_universe() {
    let mut m = fresh();
    m.configuration.universe = Some("worlds".to_string());
    select(&mut m, option_named("universe"));
    m.dispatch(Event::EditorEvent(EditorEvent::SelectedNone), None);
    assert_eq!(m.configuration.universe, None);
    assert_eq!(m.state, AppState::ChoiceMenu);
}

#[test]
fn unlisted_events_change_nothing() {
    let mut m = fresh();
    m.dispatch(Event::AppEvent(AppEvent::StartServer), None);
    m.dispatch(Event::AppEvent(AppEvent::StartServer), None);
    assert_eq!(m.state, AppState::Running);
    m.dispatch(
        Event::AppEvent(AppEvent::SelectedOption),
        Some(Payload::ConfigurationOption(option_named("gui"))),
    );
    assert_eq!(m.state, AppState::Running);
    assert_eq!(m.editor_state, None);

    let mut e = fresh();
    select(&mut e, option_named("gui"));
    e.dispatch(Event::AppEvent(AppEvent::Exit), None);
    e.dispatch(Event::AppEvent(AppEvent::StartServer), None);
    e.dispatch(Event::EditorEvent(EditorEvent::SelectedValue), None);
    e.dispatch(Event::EditorEvent(EditorEvent::SelectedNone), None);
    assert_eq!(e.state, AppState::EditingConfiguration);
    assert_eq!(e.editor_state, Some(EditorState::SelectOnOff));
    assert_eq!(e.selected_configuration_option.unwrap().property, "gui");
}

#[test]
fn submit_while_choosing_presence_changes_nothing() {
    let mut m = fresh();
    select(&mut m, option_named("port"));
    submit(&mut m, ConfigurationOptionType::OptionU16(Some(1)));
    assert_eq!(m.editor_state, Some(EditorState::SelectValueOrNone));
    assert_eq!(m.state, AppState::EditingConfiguration);
    assert_eq!(m.configuration.port, None);
}

#[test]
fn dispatch_contract_check() {
    let m = fresh();
    assert!(!m.can_dispatch(Event::EditorEvent(EditorEvent::SubmitValue), &None));
    assert!(!m.can_dispatch(Event::AppEvent(AppEvent::SelectedOption), &None));
    assert!(m.can_dispatch(Event::AppEvent(AppEvent::Exit), &None));
    let mut e = fresh();
    select(&mut e, option_named("gui"));
    let number = Some(Payload::ConfigurationOptionType(ConfigurationOptionType::OptionU16(
        Some(3),
    )));
    let boolean = Some(Payload::ConfigurationOptionType(ConfigurationOptionType::Bool(false)));
    assert!(!e.can_dispatch(Event::EditorEvent(EditorEvent::SubmitValue), &number));
    assert!(e.can_dispatch(Event::EditorEvent(EditorEvent::SubmitValue), &boolean));
}

#[test]
fn flag_set_membership() {
    let f = ConfigurationOptionTypeFlags::empty()
        .with(ConfigurationOptionTypeFlag::Option)
        .with(ConfigurationOptionTypeFlag::String);
    assert!(f.contains(ConfigurationOptionTypeFlag::Option));
    assert!(f.contains(ConfigurationOptionTypeFlag::String));
    assert!(!f.contains(ConfigurationOptionTypeFlag::Bool));
    assert!(!f.contains(ConfigurationOptionTypeFlag::U16));
}
