//! The options of the `on` action, read from the command line's words.

use crate::decimal::{parse_u16, u16_of};
use vstd::prelude::*;

verus! {

/// The port served when the command line names none.
pub const DEFAULT_PORT: u16 = 3000;

/// The options given on the command line.
#[derive(Debug, PartialEq, Eq)]
pub struct Args {
    /// Path of the configuration file.
    pub config: Option<String>,
    /// Port to listen on.
    pub port: Option<u16>,
    /// Secret for changing slides; it overrides the configured one.
    pub password: Option<String>,
    /// Whether viewers get the controls without the secret.
    pub control: bool,
}

/// `Args`, with texts as sequences of characters.
pub struct ArgsView {
    pub config: Option<Seq<char>>,
    pub port: Option<u16>,
    pub password: Option<Seq<char>>,
    pub control: bool,
}

impl View for Args {
    type V = ArgsView;

    open spec fn view(&self) -> ArgsView {
        ArgsView {
            config: match self.config {
                Some(path) => Some(path@),
                None => None,
            },
            port: self.port,
            password: match self.password {
                Some(secret) => Some(secret@),
                None => None,
            },
            control: self.control,
        }
    }
}

/// Why a command line was refused.
#[derive(Debug, Clone, Copy, PartialEq, Eq, Structural)]
pub enum ArgsError {
    /// `--config` occurs a second time.
    ConfigRepeated,
    /// `--config` is the last word.
    ConfigMissing,
    /// `--port` occurs a second time.
    PortRepeated,
    /// `--port` is the last word.
    PortMissing,
    /// The word after `--port` is no 16-bit decimal number.
    PortInvalid,
    /// `--password` occurs a second time.
    PasswordRepeated,
    /// `--password` is the last word.
    PasswordMissing,
    /// `--control` occurs a second time.
    ControlRepeated,
}

/// What reading a command line gave: the words that were not understood, up to
/// the point where reading stopped, and the options or the reason for refusal.
#[derive(Debug, PartialEq, Eq)]
pub struct Parse {
    pub unknown: Vec<String>,
    pub outcome: Result<Args, ArgsError>,
}

/// The characters of each text of `words`.
pub open spec fn texts(words: Seq<String>) -> Seq<Seq<char>> {
    words.map_values(|word: String| word@)
}

/// `outcome`, with the options taken by their view.
pub open spec fn outcome_view(outcome: Result<Args, ArgsError>) -> Result<ArgsView, ArgsError> {
    match outcome {
        Ok(args) => Ok(args@),
        Err(error) => Err(error),
    }
}

/// No option given.
pub open spec fn no_args() -> ArgsView {
    ArgsView { config: None, port: None, password: None, control: false }
}

/// Reads `words` from the left, with `seen` and `unknown` gathered so far.
///
/// `--config`, `--port` and `--password` take the next word as their value,
/// whatever it is; `--control` takes none. Each may occur once. Any other word
/// is set aside as unknown and reading goes on. Reading stops at the first
/// fault.
pub open spec fn scan(words: Seq<Seq<char>>, seen: ArgsView, unknown: Seq<Seq<char>>) -> (
    Seq<Seq<char>>,
    Result<ArgsView, ArgsError>,
)
    decreases words.len(),
{
    if words.len() == 0 {
        (unknown, Ok(seen))
    } else if words[0] == "--config"@ {
        if seen.config is Some {
            (unknown, Err(ArgsError::ConfigRepeated))
        } else if words.len() < 2 {
            (unknown, Err(ArgsError::ConfigMissing))
        } else {
            scan(words.skip(2), ArgsView { config: Some(words[1]), ..seen }, unknown)
        }
    } else if words[0] == "--port"@ {
        if seen.port is Some {
            (unknown, Err(ArgsError::PortRepeated))
        } else if words.len() < 2 {
            (unknown, Err(ArgsError::PortMissing))
        } else if u16_of(words[1]) is None {
            (unknown, Err(ArgsError::PortInvalid))
        } else {
            scan(words.skip(2), ArgsView { port: u16_of(words[1]), ..seen }, unknown)
        }
    } else if words[0] == "--password"@ {
        if seen.password is Some {
            (unknown, Err(ArgsError::PasswordRepeated))
        } else if words.len() < 2 {
            (unknown, Err(ArgsError::PasswordMissing))
        } else {
            scan(words.skip(2), ArgsView { password: Some(words[1]), ..seen }, unknown)
        }
    } else if words[0] == "--control"@ {
        if seen.control {
            (unknown, Err(ArgsError::ControlRepeated))
        } else {
            scan(words.skip(1), ArgsView { control: true, ..seen }, unknown)
        }
    } else {
        scan(words.skip(1), seen, unknown.push(words[0]))
    }
}

/// What a whole command line means.
pub open spec fn parsed(words: Seq<Seq<char>>) -> (Seq<Seq<char>>, Result<ArgsView, ArgsError>) {
    scan(words, no_args(), Seq::empty())
}

impl ArgsError {
    /// The sentence that tells the user of the fault.
    pub fn message(&self) -> (text: &'static str)
        ensures
            text@ == match *self {
                ArgsError::ConfigRepeated => "Config file already specified."@,
                ArgsError::ConfigMissing => "Config file path not specified."@,
                ArgsError::PortRepeated => "Port already specified."@,
                ArgsError::PortMissing => "Port not specified."@,
                ArgsError::PortInvalid => "Port is not a number from 0 to 65535."@,
                ArgsError::PasswordRepeated => "Password already specified."@,
                ArgsError::PasswordMissing => "Password not specified."@,
                ArgsError::ControlRepeated => "Control already enabled."@,
            },
    {
        match self {
            ArgsError::ConfigRepeated => "Config file already specified.",
            ArgsError::ConfigMissing => "Config file path not specified.",
            ArgsError::PortRepeated => "Port already specified.",
            ArgsError::PortMissing => "Port not specified.",
            ArgsError::PortInvalid => "Port is not a number from 0 to 65535.",
            ArgsError::PasswordRepeated => "Password already specified.",
            ArgsError::PasswordMissing => "Password not specified.",
            ArgsError::ControlRepeated => "Control already enabled.",
        }
    }
}

impl Args {
    /// The port to serve: the one given, else `DEFAULT_PORT`.
    pub fn port_or_default(&self) -> (port: u16)
        ensures
            port == match self.port {
                Some(given) => given,
                None => DEFAULT_PORT,
            },
    {
        match self.port {
            Some(given) => given,
            None => DEFAULT_PORT,
        }
    }

    /// Reads the options from `words`, the command line after the program's
    /// name and the action.
    pub fn parse(words: &Vec<String>) -> (parse: Parse)
        ensures
            (texts(parse.unknown@), outcome_view(parse.outcome)) == parsed(texts(words@)),
    {
        let config_flag = String::from_str("--config");
        let port_flag = String::from_str("--port");
        let password_flag = String::from_str("--password");
        let control_flag = String::from_str("--control");
        let mut args = Args { config: None, port: None, password: None, control: false };
        let mut unknown: Vec<String> = Vec::new();
        let mut at: usize = 0;
        let ghost all = texts(words@);
        assert(all.skip(0) =~= all);
        assert(texts(unknown@) =~= Seq::<Seq<char>>::empty());
        while at < words.len()
            invariant
                at <= words.len(),
                all == texts(words@),
                config_flag@ == "--config"@,
                port_flag@ == "--port"@,
                password_flag@ == "--password"@,
                control_flag@ == "--control"@,
                parsed(all) == scan(all.skip(at as int), args@, texts(unknown@)),
            decreases words.len() - at,
        {
            let word = &words[at];
            let ghost rest = all.skip(at as int);
            let ghost gathered = texts(unknown@);
            assert(rest[0] == word@);
            assert(rest.skip(1) =~= all.skip(at + 1));
            if *word == config_flag {
                if args.config.is_some() {
                    return Parse { unknown, outcome: Err(ArgsError::ConfigRepeated) };
                }
                if words.len() - at < 2 {
                    return Parse { unknown, outcome: Err(ArgsError::ConfigMissing) };
                }
                assert(rest[1] == words@[at + 1]@);
                assert(rest.skip(2) =~= all.skip(at + 2));
                args.config = Some(words[at + 1].clone());
                at = at + 2;
            } else if *word == port_flag {
                if args.port.is_some() {
                    return Parse { unknown, outcome: Err(ArgsError::PortRepeated) };
                }
                if words.len() - at < 2 {
                    return Parse { unknown, outcome: Err(ArgsError::PortMissing) };
                }
                assert(rest[1] == words@[at + 1]@);
                assert(rest.skip(2) =~= all.skip(at + 2));
                match parse_u16(words[at + 1].as_str()) {
                    Some(port) => {
                        args.port = Some(port);
                    },
                    None => {
                        return Parse { unknown, outcome: Err(ArgsError::PortInvalid) };
                    },
                }
                at = at + 2;
            } else if *word == password_flag {
                if args.password.is_some() {
                    return Parse { unknown, outcome: Err(ArgsError::PasswordRepeated) };
                }
                if words.len() - at < 2 {
                    return Parse { unknown, outcome: Err(ArgsError::PasswordMissing) };
                }
                assert(rest[1] == words@[at + 1]@);
                assert(rest.skip(2) =~= all.skip(at + 2));
                args.password = Some(words[at + 1].clone());
                at = at + 2;
            } else if *word == control_flag {
                if args.control {
                    return Parse { unknown, outcome: Err(ArgsError::ControlRepeated) };
                }
                args.control = true;
                at = at + 1;
            } else {
                unknown.push(word.clone());
                assert(texts(unknown@) =~= gathered.push(word@));
                at = at + 1;
            }
        }
        Parse { unknown, outcome: Ok(args) }
    }
}

} // verus!
