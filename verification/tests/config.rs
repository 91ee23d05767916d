use tcp_multiplexer::cli::Cli;
use tcp_multiplexer::cli::Commands;
use tcp_multiplexer::cli::OutputFormat;
use tcp_multiplexer::config::listen;
use tcp_multiplexer::config::Address;
use tcp_multiplexer::config::Config;
use tcp_multiplexer::config::HostAddr;

#[test]
fn default_config_listens_on_loopback() {
    let config = Config::default();
    let Address::Tcp(host, port) = config.listen;
    assert_eq!(port, 27632);
    match host {
        HostAddr::V4 { octets } => assert_eq!(octets, (127, 0, 0, 1)),
        HostAddr::V6 { .. } => panic!("default listen address is a dotted quad"),
    }
}

#[test]
fn default_listen_matches_config_default() {
    let Address::Tcp(host, port) = listen();
    assert_eq!(port, 27632);
    assert!(matches!(host, HostAddr::V4 { octets: (127, 0, 0, 1) }));
}

#[test]
fn cli_defaults_to_table_output() {
    let cli = Cli {
        command: Commands::Server,
        root_dir: None,
        output_format: None,
    };
    let format = cli.output_format.clone().unwrap_or(OutputFormat::Table);
    assert!(matches!(format, OutputFormat::Table));
    assert!(matches!(cli.command, Commands::Server));
    assert!(cli.root_dir.is_none());
}
