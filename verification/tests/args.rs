use tileworld::args::{process_command, Args, ArgsSideEffect, Commands};
use tileworld::properties::{GameProperties, GamePropertiesError};

#[test]
fn gen_config_exits() {
    let args = Args { command: Some(Commands::GenConfig) };
    assert_eq!(process_command(args.command), Some(ArgsSideEffect::Exit));
}

#[test]
fn debug_view_adds_the_window() {
    assert_eq!(
        process_command(Some(Commands::DebugView)),
        Some(ArgsSideEffect::AddDebuggingWindowPlugins)
    );
}

#[test]
fn no_command_no_effect() {
    assert_eq!(process_command(None), None);
}

#[test]
fn only_gen_config_writes_the_config() {
    assert!(Commands::GenConfig.writes_config());
    assert!(!Commands::DebugView.writes_config());
}

#[test]
fn default_properties() {
    let properties = GameProperties::default();
    assert_eq!(properties.rpc_port, 1337);
    assert_eq!(properties.tick_speed, 1);
}

#[test]
fn default_config_is_not_written_over_a_file() {
    let refused = GameProperties::generate_default_config(true);
    assert!(matches!(refused, Err(GamePropertiesError::AlreadyExists)));
    let config = GameProperties::generate_default_config(false).unwrap();
    assert_eq!((config.rpc_port, config.tick_speed), (1337, 1));
}

#[test]
fn error_messages() {
    assert_eq!(GamePropertiesError::AlreadyExists.message(), "Properties file already exists");
    assert_eq!(GamePropertiesError::FileError("denied".to_string()).message(), "denied");
    assert_eq!(GamePropertiesError::ParsingError("line 3".to_string()).message(), "line 3");
}
