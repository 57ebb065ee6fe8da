use mihomo_proxy::cli::{Cli, Commands};

#[test]
fn cli_holds_subcommand() {
    let c = Cli { command: Some(Commands::Tunnel { port: 8080 }) };
    assert_eq!(c.command, Some(Commands::Tunnel { port: 8080 }));
    let s = Cli { command: Some(Commands::Start { url: Some("https://a/b".to_string()) }) };
    assert_ne!(s, c);
    assert_eq!(Cli { command: None }.command, None);
}
