use minecraft_server_cli::catalogue::get_config_option_info;
use minecraft_server_cli::configuration::{ConfigurationOptionType, MinecraftServerConfiguration};
use minecraft_server_cli::launch::{cli_flag, server_command};
use minecraft_server_cli::menu::get_names;

#[test]
fn catalogue_order_and_shapes() {
    let options = get_config_option_info();
    let names: Vec<&str> = options.iter().map(|o| o.property.as_str()).collect();
    assert_eq!(
        names,
        vec![
            "bonusChest",
            "demo",
            "eraseCache",
            "forceUpgrade",
            "initSettings",
            "gui",
            "port",
            "safeMode",
            "singleplayer",
            "universe",
            "world"
        ]
    );
    assert_eq!(options[6].name, "Port");
    assert!(options[6].type_flags.option_flag && options[6].type_flags.u16_flag);
    assert!(options[9].type_flags.option_flag && options[9].type_flags.string_flag);
    assert!(options[0].type_flags.bool_flag && !options[0].type_flags.option_flag);
}

#[test]
fn flags_for_each_shape() {
    let p = |s: &str| s.to_string();
    assert_eq!(cli_flag(&p("demo"), ConfigurationOptionType::Bool(true)), Some(p("--demo")));
    assert_eq!(cli_flag(&p("demo"), ConfigurationOptionType::Bool(false)), None);
    assert_eq!(cli_flag(&p("gui"), ConfigurationOptionType::Bool(false)), Some(p("--nogui")));
    assert_eq!(cli_flag(&p("gui"), ConfigurationOptionType::Bool(true)), None);
    assert_eq!(
        cli_flag(&p("port"), ConfigurationOptionType::OptionU16(Some(25565))),
        Some(p("--port 25565"))
    );
    assert_eq!(cli_flag(&p("port"), ConfigurationOptionType::OptionU16(None)), None);
    assert_eq!(
        cli_flag(&p("world"), ConfigurationOptionType::OptionString(Some(p("w1")))),
        Some(p("--world w1"))
    );
    assert_eq!(cli_flag(&p("world"), ConfigurationOptionType::OptionString(None)), None);
}

#[test]
fn command_for_defaults() {
    let c = MinecraftServerConfiguration::default();
    assert_eq!(
        server_command(&c, &"server.jar".to_string()),
        "java -jar server.jar --bonusChest --nogui"
    );
}

#[test]
fn command_with_values() {
    let mut c = MinecraftServerConfiguration::default();
    c.bonusChest = false;
    c.gui = true;
    c.port = Some(7);
    c.safeMode = true;
    c.world = Some("w".to_string());
    assert_eq!(
        server_command(&c, &"s.jar".to_string()),
        "java -jar s.jar --port 7 --safeMode --world w"
    );
}

#[test]
fn menu_labels() {
    let mut c = MinecraftServerConfiguration::default();
    c.port = Some(25565);
    c.universe = Some("all".to_string());
    let names = get_names(get_config_option_info(), c);
    assert_eq!(names.len(), 13);
    assert_eq!(names[0], "Start server now");
    assert_eq!(names[1], "Exit");
    assert_eq!(names[2], "Bonus chest (Enabled)");
    assert_eq!(names[3], "Demo mode (Disabled)");
    assert_eq!(names[8], "Port (25565)");
    assert_eq!(names[11], "Universe name (all)");
    assert_eq!(names[12], "World name (default)");
}

#[test]
fn menu_labels_of_empty_catalogue() {
    let names = get_names(Vec::new(), MinecraftServerConfiguration::default());
    assert_eq!(names, vec!["Start server now".to_string(), "Exit".to_string()]);
}
