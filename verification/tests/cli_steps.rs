use dsn_cli::cli::{next_step, parse_command, CliStep, Command, ReadOutcome};

#[test]
fn named_commands() {
    assert_eq!(parse_command("show listeners"), Command::ShowListeners);
    assert_eq!(parse_command("show connected_peers"), Command::ShowConnectedPeers);
    assert_eq!(parse_command("show connected_servers"), Command::ShowConnectedServers);
    assert_eq!(parse_command("exit"), Command::Exit);
    assert_eq!(parse_command("quit"), Command::Exit);
}

#[test]
fn download_commands() {
    assert_eq!(parse_command("download 0"), Command::Download(0));
    assert_eq!(parse_command("download 12345"), Command::Download(12345));
    assert_eq!(parse_command("download +5"), Command::Download(5));
    assert_eq!(parse_command("download download 9"), Command::Download(9));
    assert_eq!(
        parse_command("download 18446744073709551615"),
        Command::Download(u64::MAX)
    );
}

#[test]
fn invalid_piece_indexes() {
    assert_eq!(parse_command("download "), Command::InvalidPieceIndex);
    assert_eq!(parse_command("download abc"), Command::InvalidPieceIndex);
    assert_eq!(parse_command("download -1"), Command::InvalidPieceIndex);
    assert_eq!(parse_command("download 1 "), Command::InvalidPieceIndex);
    assert_eq!(
        parse_command("download 18446744073709551616"),
        Command::InvalidPieceIndex
    );
}

#[test]
fn unknown_commands() {
    assert_eq!(parse_command(""), Command::Unknown);
    assert_eq!(parse_command("download"), Command::Unknown);
    assert_eq!(parse_command("Download 5"), Command::Unknown);
    assert_eq!(parse_command("show listeners "), Command::Unknown);
    assert_eq!(parse_command(" exit"), Command::Unknown);
    assert_eq!(parse_command("help"), Command::Unknown);
}

#[test]
fn download_round_trip_on_values() {
    for n in [0u64, 7, 10, 255, 1_000_000, u64::MAX] {
        assert_eq!(parse_command(&format!("download {n}")), Command::Download(n));
    }
}

#[test]
fn read_outcomes() {
    assert_eq!(next_step(&ReadOutcome::Interrupted), CliStep::Skip);
    assert_eq!(next_step(&ReadOutcome::Eof), CliStep::Quit);
    assert_eq!(next_step(&ReadOutcome::Failed), CliStep::Fail);
    assert_eq!(next_step(&ReadOutcome::Line("exit".to_string())), CliStep::Quit);
    assert_eq!(next_step(&ReadOutcome::Line("quit".to_string())), CliStep::Quit);
    assert_eq!(
        next_step(&ReadOutcome::Line("download 3".to_string())),
        CliStep::Run(Command::Download(3))
    );
    assert_eq!(
        next_step(&ReadOutcome::Line("nonsense".to_string())),
        CliStep::Run(Command::Unknown)
    );
}
