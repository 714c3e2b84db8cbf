//! What the command line asks for.
use vstd::prelude::*;

use crate::text;

verus! {

/// What of the command line decides the mode.
#[derive(Debug)]
pub struct CommandLine {
    /// The collection to run.
    pub collection: Option<String>,
    /// The environments to load.
    pub env: Vec<String>,
    /// The report to run.
    pub report: Option<String>,
    /// Where to write.
    pub outputs: Vec<String>,
    /// Whether to show windows.
    pub gui: bool,
    /// Whether to import a Postman workspace.
    pub postman_import: bool,
}

/// What a [`CommandLine`] holds.
#[verifier::ext_equal]
pub struct CommandView {
    pub collection: Option<Seq<char>>,
    pub env: Seq<Seq<char>>,
    pub report: Option<Seq<char>>,
    pub outputs: Seq<Seq<char>>,
    pub gui: bool,
    pub postman_import: bool,
}

impl DeepView for CommandLine {
    type V = CommandView;

    open spec fn deep_view(&self) -> CommandView {
        CommandView {
            collection: self.collection.deep_view(),
            env: self.env.deep_view(),
            report: self.report.deep_view(),
            outputs: self.outputs.deep_view(),
            gui: self.gui,
            postman_import: self.postman_import,
        }
    }
}

/// The mode to run in.
#[derive(Debug)]
pub enum Launch {
    /// The command line makes no sense; why.
    Refused(String),
    /// Import a Postman workspace, into a directory if one is given.
    Import { out: Option<String> },
    /// Run a report.
    Report { report: String },
    /// Run a collection, with an environment if one is given, and a warning if
    /// there is something to warn of.
    Run { collection: String, env: Option<String>, warning: Option<String> },
    Gui,
    Terminal,
}

/// What a [`Launch`] holds.
#[verifier::ext_equal]
pub enum LaunchView {
    Refused(Seq<char>),
    Import { out: Option<Seq<char>> },
    Report { report: Seq<char> },
    Run { collection: Seq<char>, env: Option<Seq<char>>, warning: Option<Seq<char>> },
    Gui,
    Terminal,
}

impl DeepView for Launch {
    type V = LaunchView;

    open spec fn deep_view(&self) -> LaunchView {
        match self {
            Launch::Refused(why) => LaunchView::Refused(why@),
            Launch::Import { out } => LaunchView::Import { out: out.deep_view() },
            Launch::Report { report } => LaunchView::Report { report: report@ },
            Launch::Run { collection, env, warning } => LaunchView::Run {
                collection: collection@,
                env: env.deep_view(),
                warning: warning.deep_view(),
            },
            Launch::Gui => LaunchView::Gui,
            Launch::Terminal => LaunchView::Terminal,
        }
    }
}

/// The first of some texts.
pub open spec fn first_of(s: Seq<Seq<char>>) -> Option<Seq<char>> {
    if s.len() == 0 {
        None
    } else {
        Some(s[0])
    }
}

/// The mode that a command line asks for. An output goes with a report or an
/// import alone, and an import has one. An import goes before a report, a
/// report before a collection, and a collection before the windows; the
/// terminal is what is left.
pub open spec fn mode_of(c: CommandView) -> LaunchView {
    if c.outputs.len() > 0 && c.report is None && !c.postman_import {
        LaunchView::Refused("error: -o/--output requires -r/--report or --postman-import"@)
    } else if c.postman_import {
        if c.outputs.len() > 1 {
            LaunchView::Refused(
                "error: --postman-import downloads into one directory, but -o was given "@
                    + text::decimal(c.outputs.len()) + " times"@,
            )
        } else {
            LaunchView::Import { out: first_of(c.outputs) }
        }
    } else if c.report is Some {
        LaunchView::Report { report: c.report.unwrap() }
    } else if c.collection is Some {
        LaunchView::Run {
            collection: c.collection.unwrap(),
            env: first_of(c.env),
            warning: if c.env.len() > 1 {
                Some(
                    "warning: multiple -e environments are only used by reports (-r); "@
                        + "running the collection with the first one"@,
                )
            } else {
                None
            },
        }
    } else if c.gui {
        LaunchView::Gui
    } else {
        LaunchView::Terminal
    }
}

/// The first of some texts.
fn take_first(s: &[String]) -> (r: Option<String>)
    ensures
        r.deep_view() == first_of(s.deep_view()),
{
    if s.len() == 0 {
        None
    } else {
        assert(s.deep_view()[0] == s@[0]@);
        Some(s[0].clone())
    }
}

impl CommandLine {
    /// The mode that the command line asks for.
    pub fn mode(&self) -> (r: Launch)
        ensures
            r.deep_view() == mode_of(self.deep_view()),
    {
        if self.outputs.len() > 0 && self.report.is_none() && !self.postman_import {
            return Launch::Refused(
                "error: -o/--output requires -r/--report or --postman-import".to_owned(),
            );
        }
        if self.postman_import {
            if self.outputs.len() > 1 {
                let mut why =
                    "error: --postman-import downloads into one directory, but -o was given ".to_owned();
                why.push_str(text::to_decimal(self.outputs.len() as u128).as_str());
                why.push_str(" times");
                return Launch::Refused(why);
            }
            return Launch::Import { out: take_first(self.outputs.as_slice()) };
        }
        if let Some(report) = &self.report {
            return Launch::Report { report: report.clone() };
        }
        if let Some(collection) = &self.collection {
            let warning = if self.env.len() > 1 {
                let mut w =
                    "warning: multiple -e environments are only used by reports (-r); ".to_owned();
                w.push_str("running the collection with the first one");
                Some(w)
            } else {
                None
            };
            return Launch::Run {
                collection: collection.clone(),
                env: take_first(self.env.as_slice()),
                warning,
            };
        }
        if self.gui {
            Launch::Gui
        } else {
            Launch::Terminal
        }
    }
}

/// An output that nothing would write to is refused, whatever else is asked for. An
/// import wins over a report, that over a collection, and that over the windows; and of
/// several environments a collection is run with the first, and with a warning.
pub proof fn a_launch_follows_the_first_thing_asked_for(c: CommandView)
    ensures
        c.outputs.len() > 0 && c.report is None && !c.postman_import ==> mode_of(c) is Refused,
        c.postman_import && c.outputs.len() > 1 ==> mode_of(c) is Refused,
        c.postman_import && c.outputs.len() == 1 ==> mode_of(c) == (LaunchView::Import {
            out: Some(c.outputs[0]),
        }),
        c.postman_import && c.outputs.len() == 0 ==> mode_of(c) == (LaunchView::Import {
            out: None,
        }),
        !c.postman_import && c.report is Some ==> mode_of(c) == (LaunchView::Report {
            report: c.report.unwrap(),
        }),
        !c.postman_import && c.report is None && c.outputs.len() == 0 ==> {
            &&& c.collection is Some ==> {
                &&& mode_of(c) is Run && mode_of(c)->collection == c.collection.unwrap()
                &&& c.env.len() > 0 ==> mode_of(c)->env == Some(c.env[0])
                &&& c.env.len() == 0 ==> mode_of(c)->env is None
                &&& mode_of(c)->warning is Some == (c.env.len() > 1)
            }
            &&& c.collection is None && c.gui ==> mode_of(c) is Gui
            &&& c.collection is None && !c.gui ==> mode_of(c) is Terminal
        },
{
}

} // verus!
