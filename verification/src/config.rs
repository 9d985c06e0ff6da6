//! The presentation's configuration and the state a running server keeps of it.

use crate::args::Args;
use crate::slides::{normalize_index, normalized};
use vstd::prelude::*;

verus! {

/// Width and height of a slide, as a ratio.
#[derive(Debug, Clone, Copy, PartialEq, Eq, Structural)]
pub struct Dimensions {
    pub width: u16,
    pub height: u16,
}

/// A presentation as its configuration file describes it.
#[derive(Debug, PartialEq, Eq)]
pub struct Config {
    pub name: String,
    pub password: Option<String>,
    pub control: Option<bool>,
    pub slides: Vec<String>,
    pub slide_ratio: Dimensions,
    pub background: Option<String>,
}

/// What a running server knows of its presentation. It does not change while
/// the server runs.
#[derive(Debug, PartialEq, Eq)]
pub struct ServerState {
    pub name: String,
    pub slides: Vec<String>,
    pub slide_ratio: Dimensions,
    /// The shared secret; empty where none was configured.
    pub password: String,
    pub control: bool,
    pub background: String,
}

/// Whether two texts hold the same characters.
pub fn same_text(left: &str, right: &str) -> (same: bool)
    ensures
        same == (left@ == right@),
{
    left.to_owned() == right.to_owned()
}

/// The background of a presentation that configures none.
pub fn default_background() -> (color: String)
    ensures
        color@ == "#111122"@,
{
    String::from_str("#111122")
}

/// The background that a configuration without one is read with.
pub fn get_bg() -> (background: Option<String>)
    ensures
        background matches Some(color) && color@ == "#111122"@,
{
    Some(default_background())
}

/// The secret in force: the command line's, else the configuration's, else
/// the empty one.
pub open spec fn secret_in_force(
    given: Option<Seq<char>>,
    configured: Option<Seq<char>>,
) -> Seq<char> {
    match given {
        Some(secret) => secret,
        None => match configured {
            Some(secret) => secret,
            None => Seq::empty(),
        },
    }
}

/// Whether a control request presenting `candidate` passes a gate that holds
/// `secret`: the two are the same text.
pub open spec fn passes(secret: Seq<char>, candidate: Seq<char>) -> bool {
    candidate == secret
}

/// A server for which no secret was configured lets the empty credential
/// pass, and no other.
pub proof fn lemma_unconfigured_gate(candidate: Seq<char>)
    ensures
        passes(secret_in_force(None, None), Seq::empty()),
        passes(secret_in_force(None, None), candidate) <==> candidate.len() == 0,
{
    if candidate.len() == 0 {
        assert(candidate =~= Seq::empty());
    }
}

impl Dimensions {
    /// The ratio that one of the labels `16:9`, `4:3` and `1:1` names.
    pub fn from_label(label: &str) -> (ratio: Option<Dimensions>)
        ensures
            ratio == if label@ == "16:9"@ {
                Some(Dimensions { width: 16, height: 9 })
            } else if label@ == "4:3"@ {
                Some(Dimensions { width: 4, height: 3 })
            } else if label@ == "1:1"@ {
                Some(Dimensions { width: 1, height: 1 })
            } else {
                None
            },
    {
        if same_text(label, "16:9") {
            Some(Dimensions { width: 16, height: 9 })
        } else if same_text(label, "4:3") {
            Some(Dimensions { width: 4, height: 3 })
        } else if same_text(label, "1:1") {
            Some(Dimensions { width: 1, height: 1 })
        } else {
            None
        }
    }
}

impl Config {
    /// The configuration of a new presentation, from the answers given when it
    /// is set up. An empty secret is left out, and so is a refusal of viewer
    /// control.
    pub fn from_answers(
        name: String,
        password: String,
        control: bool,
        background: Option<String>,
        slides: Vec<String>,
        slide_ratio: Dimensions,
    ) -> (config: Config)
        ensures
            config.name == name,
            config.password == if password@.len() == 0 {
                None
            } else {
                Some(password)
            },
            config.control == if control {
                Some(true)
            } else {
                None
            },
            config.background == background,
            config.slides == slides,
            config.slide_ratio == slide_ratio,
    {
        let password = if password.as_str().is_empty() {
            None
        } else {
            Some(password)
        };
        let control = if control {
            Some(true)
        } else {
            None
        };
        Config { name, password, control, slides, slide_ratio, background }
    }
}

impl ServerState {
    /// The state of a server started on `config` with the options `args`:
    /// what the command line gives overrides the configuration.
    pub fn new(config: Config, args: Args) -> (state: ServerState)
        ensures
            state.name == config.name,
            state.slides == config.slides,
            state.slide_ratio == config.slide_ratio,
            state.password@ == secret_in_force(
                args@.password,
                match config.password {
                    Some(secret) => Some(secret@),
                    None => None,
                },
            ),
            state.control == (args.control || config.control == Some(true)),
            state.background@ == match config.background {
                Some(color) => color@,
                None => "#111122"@,
            },
    {
        let Config { name, password, control, slides, slide_ratio, background } = config;
        let Args { config: _, port: _, password: given, control: allowed } = args;
        let password = match given {
            Some(secret) => secret,
            None => match password {
                Some(secret) => secret,
                None => String::new(),
            },
        };
        let control = allowed || match control {
            Some(configured) => configured,
            None => false,
        };
        let background = match background {
            Some(color) => color,
            None => default_background(),
        };
        ServerState { name, slides, slide_ratio, password, control, background }
    }

    /// The control gate: whether `candidate` is the shared secret, character
    /// for character. The control flag plays no part.
    pub fn authorize(&self, candidate: &str) -> (granted: bool)
        ensures
            granted == passes(self.password@, candidate@),
    {
        same_text(candidate, self.password.as_str())
    }

    /// The slide that a request for `page` is served: the one at `page` modulo
    /// the number of slides. There is none only where the presentation has no
    /// slides.
    pub fn slide(&self, page: usize) -> (path: Option<&String>)
        ensures
            self.slides@.len() == 0 ==> path is None,
            self.slides@.len() > 0 ==> path == Some(
                &self.slides@[normalized(page as nat, self.slides@.len()) as int],
            ),
    {
        if self.slides.len() == 0 {
            None
        } else {
            Some(&self.slides[normalize_index(page, self.slides.len())])
        }
    }
}

} // verus!
