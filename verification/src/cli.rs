//! The interactive command loop's decisions: which command a typed line names, and what
//! the loop does with each outcome of reading a line. The loop itself (reading, querying
//! the node, printing) runs outside the library and hands each outcome to `next_step`.

use vstd::prelude::*;
use crate::text::{
    decimal, has_prefix, lemma_decimal, lemma_parse_decimal, parse_u64, parse_u64_spec,
    same_text, starts_with, trim_prefix_all, trim_start_matches,
};

verus! {

/// How many pieces may be downloaded at the same time.
pub const PIECE_DOWNLOAD_PERMITS: usize = 100;

/// How many attempts a piece download from archival storage makes.
pub const ARCHIVAL_DOWNLOAD_ATTEMPTS: usize = 100;

/// The prompt shown before each line.
pub const PROMPT: &'static str = ">> ";

/// A command of the interactive prompt.
#[derive(PartialEq, Eq, Structural, Clone, Copy, Debug)]
pub enum Command {
    /// `show listeners`: print the addresses the node listens on.
    ShowListeners,
    /// `show connected_peers`: print the peers the node is connected to.
    ShowConnectedPeers,
    /// `show connected_servers`: print the connected peers that serve requests.
    ShowConnectedServers,
    /// `download <index>`: fetch the piece with this index from archival storage.
    Download(u64),
    /// `download ...` whose argument is not a piece index.
    InvalidPieceIndex,
    /// `exit` or `quit`: leave the prompt.
    Exit,
    /// Anything else.
    Unknown,
}

/// The command that a line names.
pub open spec fn command_of(line: Seq<char>) -> Command {
    if line == "show listeners"@ {
        Command::ShowListeners
    } else if line == "show connected_peers"@ {
        Command::ShowConnectedPeers
    } else if line == "show connected_servers"@ {
        Command::ShowConnectedServers
    } else if has_prefix(line, "download "@) {
        match parse_u64_spec(trim_prefix_all(line, "download "@)) {
            Some(index) => Command::Download(index),
            None => Command::InvalidPieceIndex,
        }
    } else if line == "exit"@ || line == "quit"@ {
        Command::Exit
    } else {
        Command::Unknown
    }
}

/// Reads the command that `line` names.
pub fn parse_command(line: &str) -> (cmd: Command)
    ensures
        cmd == command_of(line@),
{
    if same_text(line, "show listeners") {
        Command::ShowListeners
    } else if same_text(line, "show connected_peers") {
        Command::ShowConnectedPeers
    } else if same_text(line, "show connected_servers") {
        Command::ShowConnectedServers
    } else if starts_with(line, "download ") {
        match parse_u64(trim_start_matches(line, "download ")) {
            Some(index) => Command::Download(index),
            None => Command::InvalidPieceIndex,
        }
    } else if same_text(line, "exit") || same_text(line, "quit") {
        Command::Exit
    } else {
        Command::Unknown
    }
}

/// What one attempt to read a line from the prompt produced.
pub enum ReadOutcome {
    /// A line was read.
    Line(String),
    /// The user pressed Ctrl-C.
    Interrupted,
    /// The input ended (Ctrl-D).
    Eof,
    /// Reading failed for another reason.
    Failed,
}

/// What the loop does next.
#[derive(PartialEq, Eq, Structural, Clone, Copy, Debug)]
pub enum CliStep {
    /// Carry out the command, then read the next line.
    Run(Command),
    /// Read the next line.
    Skip,
    /// Leave the loop normally.
    Quit,
    /// Report the read error and leave the loop.
    Fail,
}

/// The step that follows a read outcome.
pub open spec fn step_of(outcome: ReadOutcome) -> CliStep {
    match outcome {
        ReadOutcome::Line(line) => {
            let cmd = command_of(line@);
            if cmd == Command::Exit {
                CliStep::Quit
            } else {
                CliStep::Run(cmd)
            }
        },
        ReadOutcome::Interrupted => CliStep::Skip,
        ReadOutcome::Eof => CliStep::Quit,
        ReadOutcome::Failed => CliStep::Fail,
    }
}

/// Decides what the prompt loop does with a read outcome.
pub fn next_step(outcome: &ReadOutcome) -> (step: CliStep)
    ensures
        step == step_of(*outcome),
        outcome matches ReadOutcome::Line(line) ==> ((step == CliStep::Quit) <==> (line@
            == "exit"@ || line@ == "quit"@)),
        outcome matches ReadOutcome::Line(line) ==> (line@ != "exit"@ && line@ != "quit"@
            ==> step == CliStep::Run(command_of(line@))),
        outcome matches ReadOutcome::Line(line) ==> (has_prefix(line@, "download "@)
            ==> step is Run),
        *outcome is Interrupted ==> step == CliStep::Skip,
        *outcome is Eof ==> step == CliStep::Quit,
        *outcome is Failed ==> step == CliStep::Fail,
{
    proof {
        if let ReadOutcome::Line(line) = outcome {
            lemma_exit_words(line@);
        }
    }
    match outcome {
        ReadOutcome::Line(line) => {
            let cmd = parse_command(line.as_str());
            if cmd == Command::Exit {
                CliStep::Quit
            } else {
                CliStep::Run(cmd)
            }
        },
        ReadOutcome::Interrupted => CliStep::Skip,
        ReadOutcome::Eof => CliStep::Quit,
        ReadOutcome::Failed => CliStep::Fail,
    }
}

/// A line names `Exit` exactly when it is `exit` or `quit`.
pub proof fn lemma_exit_words(line: Seq<char>)
    ensures
        (command_of(line) == Command::Exit) <==> (line == "exit"@ || line == "quit"@),
        has_prefix(line, "download "@) ==> command_of(line) != Command::Exit,
{
    reveal_strlit("show listeners");
    reveal_strlit("show connected_peers");
    reveal_strlit("show connected_servers");
    reveal_strlit("download ");
    reveal_strlit("exit");
    reveal_strlit("quit");
    if line == "exit"@ || line == "quit"@ {
        assert(line.len() == 4);
        assert(line != "show listeners"@);
        assert(line != "show connected_peers"@);
        assert(line != "show connected_servers"@);
        assert(!has_prefix(line, "download "@));
    }
    if has_prefix(line, "download "@) {
        assert(line.len() >= 9);
        assert(line != "exit"@);
        assert(line != "quit"@);
    }
}

/// The prompt loop ends on a read line exactly when the line is `exit` or `quit`; every
/// other line, a malformed `download` among them, runs the command it names and the loop
/// goes on.
pub proof fn lemma_loop_quits_only_on_exit_words(line: String)
    ensures
        (step_of(ReadOutcome::Line(line)) == CliStep::Quit) <==> (line@ == "exit"@ || line@
            == "quit"@),
        line@ != "exit"@ && line@ != "quit"@ ==> step_of(ReadOutcome::Line(line))
            == CliStep::Run(command_of(line@)),
        command_of(line@) == Command::InvalidPieceIndex ==> step_of(ReadOutcome::Line(line))
            == CliStep::Run(Command::InvalidPieceIndex),
{
    lemma_exit_words(line@);
}

/// Typing `download ` followed by the decimal rendering of any piece index asks for
/// exactly that piece.
pub proof fn lemma_download_round_trip(index: u64)
    ensures
        command_of("download "@ + decimal(index as nat)) == Command::Download(index),
{
    reveal_strlit("show listeners");
    reveal_strlit("show connected_peers");
    reveal_strlit("show connected_servers");
    reveal_strlit("download ");
    let p = "download "@;
    let d = decimal(index as nat);
    let line = p + d;
    lemma_decimal(index as nat);
    lemma_parse_decimal(index);
    assert(line[0] == 'd');
    assert(line != "show listeners"@);
    assert(line != "show connected_peers"@);
    assert(line != "show connected_servers"@);
    assert(line.take(p.len() as int) =~= p);
    assert(line.skip(p.len() as int) =~= d);
    assert(!has_prefix(d, p)) by {
        if p.len() <= d.len() {
            assert(d.take(p.len() as int)[0] == d[0]);
        }
    }
    assert(trim_prefix_all(d, p) == d);
    assert(trim_prefix_all(line, p) == trim_prefix_all(d, p));
}

} // verus!
