use ondc_websocket::commands::{run_custom_commands, Command};

fn args(words: &[&str]) -> Vec<String> {
    words.iter().map(|word| String::from(*word)).collect()
}

#[test]
fn generate_token_takes_the_user_name() {
    assert_eq!(
        run_custom_commands(&args(&["gateway", "generate_token", "alice"])),
        Command::GenerateToken { username: String::from("alice") }
    );
    assert_eq!(
        run_custom_commands(&args(&["gateway", "generate_token", "alice", "more"])),
        Command::GenerateToken { username: String::from("alice") }
    );
}

#[test]
fn generate_token_without_name_asks_for_nothing() {
    assert_eq!(run_custom_commands(&args(&["gateway", "generate_token"])), Command::Nothing);
}

#[test]
fn unknown_command_asks_for_nothing() {
    assert_eq!(run_custom_commands(&args(&["gateway", "migrate", "alice"])), Command::Nothing);
    assert_eq!(
        run_custom_commands(&args(&["gateway", "Generate_token", "alice"])),
        Command::Nothing
    );
}

#[test]
fn no_command_is_invalid() {
    assert_eq!(run_custom_commands(&args(&["gateway"])), Command::Invalid);
    assert_eq!(run_custom_commands(&args(&[])), Command::Invalid);
}
