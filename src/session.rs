use vstd::prelude::*;
use vstd::string::StringExecFns;
use crate::error::{message_of, VaultError};
use crate::primitives::wipe_string;

verus! {

/// Log lines kept; the oldest goes once a new one would exceed this.
pub const MAX_LOGS: usize = 100;

/// A key press, as far as the session cares.
#[derive(Debug, Clone, Copy, PartialEq, Eq, Structural)]
pub enum Key {
    Char(char),
    Backspace,
    Enter,
    Esc,
    Other,
}

/// What the front end must do after a key press.
#[derive(Debug, Clone, Copy, PartialEq, Eq, Structural)]
pub enum Command {
    /// Keep waiting for keys.
    Wait,
    /// Leave the program.
    Quit,
    /// Run the vault on the typed path with the typed passphrase.
    Run,
}

/// Relies on chrono's `Local::now().format("%H:%M:%S")`: the local wall
/// clock time of the call.
#[verifier::external_body]
fn clock_time() -> (r: String) {
    chrono::Local::now().format("%H:%M:%S").to_string()
}

/// Relies on `String::push`: the character is appended.
#[verifier::external_body]
fn push_char(s: &mut String, c: char)
    ensures
        final(s)@ == old(s)@.push(c),
{
    s.push(c);
}

/// Relies on `String::pop`: the last character, if any, is removed.
#[verifier::external_body]
fn pop_char(s: &mut String)
    ensures
        old(s)@.len() == 0 ==> final(s)@ == old(s)@,
        old(s)@.len() > 0 ==> final(s)@ == old(s)@.drop_last(),
{
    s.pop();
}

pub open spec fn lines(v: Seq<String>) -> Seq<Seq<char>> {
    v.map_values(|s: String| s@)
}

/// A log after one more line: the oldest is dropped past `MAX_LOGS`.
pub open spec fn logged(log: Seq<Seq<char>>, line: Seq<char>) -> Seq<Seq<char>> {
    if log.len() + 1 > MAX_LOGS {
        log.push(line).drop_first()
    } else {
        log.push(line)
    }
}

/// A log line: the time in brackets, then the message.
pub open spec fn stamped(time: Seq<char>, msg: Seq<char>) -> Seq<char> {
    "["@ + time + "] "@ + msg
}

/// The log message for a failed run on a target.
pub open spec fn failure_line(target: Seq<char>, err: &VaultError) -> Seq<char> {
    "FAIL on "@ + target + ": "@ + message_of(err)
}

/// The interactive session: the typed path and passphrase, the log, and the
/// last error.
pub struct App {
    pub path: String,
    pub pass: String,
    pub logs: Vec<String>,
    /// True once the path is entered and the passphrase is being typed.
    pub is_pass: bool,
    /// True while a run is in progress; typing is then ignored.
    pub busy: bool,
    pub last_error: Option<VaultError>,
}

impl App {
    pub fn new() -> (a: App)
        ensures
            a.path@.len() == 0,
            a.pass@.len() == 0,
            lines(a.logs@) == seq!["shhcrypt Hardening v1.1 Active"@],
            !a.is_pass,
            !a.busy,
            a.last_error is None,
    {
        let mut logs: Vec<String> = Vec::new();
        logs.push(String::from_str("shhcrypt Hardening v1.1 Active"));
        let a = App {
            path: String::new(),
            pass: String::new(),
            logs,
            is_pass: false,
            busy: false,
            last_error: None,
        };
        assert(lines(a.logs@) =~= seq!["shhcrypt Hardening v1.1 Active"@]);
        a
    }

    /// Appends a log line stamped with the given time.
    pub fn add_log_at(&mut self, msg: &str, time: &str)
        ensures
            lines(final(self).logs@) == logged(lines(old(self).logs@), stamped(time@, msg@)),
            final(self).path == old(self).path,
            final(self).pass == old(self).pass,
            final(self).is_pass == old(self).is_pass,
            final(self).busy == old(self).busy,
            final(self).last_error == old(self).last_error,
    {
        let line = String::from_str("[").concat(time).concat("] ").concat(msg);
        let ghost before = lines(self.logs@);
        self.logs.push(line);
        assert(lines(self.logs@) =~= before.push(stamped(time@, msg@)));
        if self.logs.len() > MAX_LOGS {
            let ghost full = lines(self.logs@);
            self.logs.remove(0);
            assert(lines(self.logs@) =~= full.drop_first());
        }
    }

    /// Appends a log line stamped with the local time now.
    pub fn add_log(&mut self, msg: &str)
        ensures
            exists|t: Seq<char>|
                lines(final(self).logs@) == #[trigger] logged(
                    lines(old(self).logs@),
                    stamped(t, msg@),
                ),
            final(self).path == old(self).path,
            final(self).pass == old(self).pass,
            final(self).is_pass == old(self).is_pass,
            final(self).busy == old(self).busy,
            final(self).last_error == old(self).last_error,
    {
        let time = clock_time();
        self.add_log_at(msg, time.as_str());
    }

    /// Logs a failed run on `target` and keeps its error as the last one.
    pub fn set_error(&mut self, err: VaultError, target: &str)
        ensures
            exists|t: Seq<char>|
                lines(final(self).logs@) == #[trigger] logged(
                    lines(old(self).logs@),
                    stamped(t, failure_line(target@, &err)),
                ),
            final(self).last_error == Some(err),
            final(self).path == old(self).path,
            final(self).pass == old(self).pass,
            final(self).is_pass == old(self).is_pass,
            final(self).busy == old(self).busy,
    {
        let line = String::from_str("FAIL on ").concat(target).concat(": ").concat(
            err.message().as_str(),
        );
        assert(line@ == failure_line(target@, &err));
        self.add_log(line.as_str());
        self.last_error = Some(err);
    }

    /// Wipes the typed path and passphrase, leaves passphrase entry and
    /// forgets the last error.
    pub fn clear(&mut self)
        ensures
            final(self).path@.len() == 0,
            final(self).pass@.len() == 0,
            !final(self).is_pass,
            final(self).last_error is None,
            final(self).busy == old(self).busy,
            exists|t: Seq<char>|
                lines(final(self).logs@) == #[trigger] logged(
                    lines(old(self).logs@),
                    stamped(t, "Session cleared."@),
                ),
    {
        wipe_string(&mut self.path);
        wipe_string(&mut self.pass);
        self.is_pass = false;
        self.last_error = None;
        self.add_log("Session cleared.");
    }

    /// Records how a run ended: a success is logged and resets the prompt;
    /// a failure is logged against the target and kept. The passphrase is
    /// wiped either way, and the session is no longer busy.
    pub fn finish_run(&mut self, result: Result<String, VaultError>, target: &str)
        ensures
            final(self).pass@.len() == 0,
            !final(self).busy,
            result matches Ok(msg) ==> {
                &&& final(self).path@.len() == 0
                &&& !final(self).is_pass
                &&& final(self).last_error is None
                &&& exists|t: Seq<char>|
                    lines(final(self).logs@) == #[trigger] logged(
                        lines(old(self).logs@),
                        stamped(t, msg@),
                    )
            },
            result matches Err(e) ==> {
                &&& final(self).path == old(self).path
                &&& final(self).is_pass == old(self).is_pass
                &&& final(self).last_error == Some(e)
                &&& exists|t: Seq<char>|
                    lines(final(self).logs@) == #[trigger] logged(
                        lines(old(self).logs@),
                        stamped(t, failure_line(target@, &e)),
                    )
            },
    {
        match result {
            Ok(msg) => {
                self.add_log(msg.as_str());
                wipe_string(&mut self.path);
                wipe_string(&mut self.pass);
                self.is_pass = false;
                self.last_error = None;
            },
            Err(e) => {
                self.set_error(e, target);
                wipe_string(&mut self.pass);
            },
        }
        self.busy = false;
    }

    /// Applies a key press to the session and says what the front end must
    /// do next. `q` quits only from an idle, empty path prompt; Enter moves
    /// from a non-empty path to the passphrase, and from a non-empty
    /// passphrase to a run.
    pub fn handle_key(&mut self, key: Key) -> (c: Command)
        ensures
            c == Command::Quit <==> (key == Key::Char('q') && !old(self).busy && !old(self).is_pass
                && old(self).path@.len() == 0),
            c == Command::Run <==> (key == Key::Enter && old(self).is_pass && old(self).pass@.len()
                > 0),
            c != Command::Wait ==> final(self).path == old(self).path && final(self).pass == old(
                self,
            ).pass && final(self).is_pass == old(self).is_pass,
            key == Key::Esc ==> final(self).path@.len() == 0 && final(self).pass@.len() == 0
                && !final(self).is_pass && final(self).last_error is None,
            key == Key::Enter ==> final(self).path == old(self).path && final(self).pass == old(
                self,
            ).pass && final(self).is_pass == (old(self).is_pass || old(self).path@.len() > 0),
            key is Char && c == Command::Wait ==> {
                let ch = key->Char_0;
                &&& old(self).busy ==> final(self).path == old(self).path && final(self).pass
                    == old(self).pass
                &&& !old(self).busy && old(self).is_pass ==> final(self).pass@ == old(
                    self,
                ).pass@.push(ch) && final(self).path == old(self).path
                &&& !old(self).busy && !old(self).is_pass ==> final(self).path@ == old(
                    self,
                ).path@.push(ch) && final(self).pass == old(self).pass
            },
            key == Key::Backspace ==> {
                &&& old(self).busy ==> final(self).path == old(self).path && final(self).pass
                    == old(self).pass
                &&& !old(self).busy && old(self).is_pass ==> final(self).pass@ == (if old(
                    self,
                ).pass@.len() == 0 {
                    old(self).pass@
                } else {
                    old(self).pass@.drop_last()
                }) && final(self).path == old(self).path
                &&& !old(self).busy && !old(self).is_pass ==> final(self).path@ == (if old(
                    self,
                ).path@.len() == 0 {
                    old(self).path@
                } else {
                    old(self).path@.drop_last()
                }) && final(self).pass == old(self).pass
            },
            key != Key::Esc ==> final(self).is_pass == old(self).is_pass || key == Key::Enter,
            key != Key::Esc ==> final(self).logs == old(self).logs && final(self).last_error == old(
                self,
            ).last_error,
            final(self).busy == old(self).busy,
    {
        match key {
            Key::Char(ch) => {
                if ch == 'q' && !self.busy && !self.is_pass && self.path.as_str().is_empty() {
                    return Command::Quit;
                }
                if !self.busy {
                    if self.is_pass {
                        push_char(&mut self.pass, ch);
                    } else {
                        push_char(&mut self.path, ch);
                    }
                }
                Command::Wait
            },
            Key::Esc => {
                self.clear();
                Command::Wait
            },
            Key::Enter => {
                if !self.is_pass {
                    if !self.path.as_str().is_empty() {
                        self.is_pass = true;
                    }
                    Command::Wait
                } else if !self.pass.as_str().is_empty() {
                    Command::Run
                } else {
                    Command::Wait
                }
            },
            Key::Backspace => {
                if !self.busy {
                    if self.is_pass {
                        pop_char(&mut self.pass);
                    } else {
                        pop_char(&mut self.path);
                    }
                }
                Command::Wait
            },
            Key::Other => Command::Wait,
        }
    }
}

} // verus!
