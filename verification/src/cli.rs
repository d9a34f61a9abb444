//! The arguments of the command line.

use crate::text::same_text;
use vstd::prelude::*;

verus! {

/// What the command line asks for.
#[derive(Debug)]
pub struct Cli {
    pub config_path: Option<String>,
    pub verbose: bool,
    pub help: bool,
    pub dump_default_config: bool,
}

/// A `Cli` with its path as a sequence of characters.
pub struct CliView {
    pub config_path: Option<Seq<char>>,
    pub verbose: bool,
    pub help: bool,
    pub dump_default_config: bool,
}

impl DeepView for Cli {
    type V = CliView;

    open spec fn deep_view(&self) -> CliView {
        CliView {
            config_path: self.config_path.deep_view(),
            verbose: self.verbose,
            help: self.help,
            dump_default_config: self.dump_default_config,
        }
    }
}

/// What is wrong with the command line.
#[derive(Debug)]
pub enum CliError {
    /// The option for the configuration is the last argument.
    MissingConfigPath,
    /// An argument is none of the options.
    UnknownArgument { argument: String },
}

/// A `CliError` with its argument as a sequence of characters.
pub enum CliErrorView {
    MissingConfigPath,
    UnknownArgument { argument: Seq<char> },
}

impl DeepView for CliError {
    type V = CliErrorView;

    open spec fn deep_view(&self) -> CliErrorView {
        match self {
            CliError::MissingConfigPath => CliErrorView::MissingConfigPath,
            CliError::UnknownArgument { argument } => CliErrorView::UnknownArgument {
                argument: argument@,
            },
        }
    }
}

impl CliErrorView {
    /// The sentence that tells a user what is wrong.
    pub open spec fn text(self) -> Seq<char> {
        match self {
            CliErrorView::MissingConfigPath => "-c/--config requires a path"@,
            CliErrorView::UnknownArgument { argument } => "unknown argument '"@ + argument + "'"@,
        }
    }
}

impl CliError {
    /// The sentence that tells a user what is wrong.
    pub fn message(&self) -> (r: String)
        ensures
            r@ == self.deep_view().text(),
    {
        match self {
            CliError::MissingConfigPath => "-c/--config requires a path".to_owned(),
            CliError::UnknownArgument { argument } => {
                let mut r = "unknown argument '".to_owned();
                r.append(argument.as_str());
                r.append("'");
                r
            },
        }
    }
}

impl CliView {
    /// A command line without options.
    pub open spec fn empty() -> CliView {
        CliView { config_path: None, verbose: false, help: false, dump_default_config: false }
    }

    /// What the arguments from index `i` on add to `self`, read from left
    /// to right. The option for the configuration takes the argument after
    /// it as the path, whatever that argument is; of several paths the last
    /// one counts.
    pub open spec fn with_args(self, args: Seq<Seq<char>>, i: int) -> Result<CliView, CliErrorView>
        decreases args.len() - i,
    {
        if i < 0 || i >= args.len() {
            Ok(self)
        } else if args[i] == "-c"@ || args[i] == "--config"@ {
            if i + 1 < args.len() {
                (CliView { config_path: Some(args[i + 1]), ..self }).with_args(args, i + 2)
            } else {
                Err(CliErrorView::MissingConfigPath)
            }
        } else if args[i] == "-v"@ || args[i] == "--verbose"@ {
            (CliView { verbose: true, ..self }).with_args(args, i + 1)
        } else if args[i] == "-h"@ || args[i] == "--help"@ {
            (CliView { help: true, ..self }).with_args(args, i + 1)
        } else if args[i] == "--dump-default-config"@ {
            (CliView { dump_default_config: true, ..self }).with_args(args, i + 1)
        } else {
            Err(CliErrorView::UnknownArgument { argument: args[i] })
        }
    }

    /// What a command line asks for. Its first argument is the name of the
    /// program and is passed over.
    pub open spec fn parsed(args: Seq<Seq<char>>) -> Result<CliView, CliErrorView> {
        Self::empty().with_args(args, 1)
    }
}

impl Cli {
    pub const USAGE: &'static str = "panorama - a status daemon for Linux\n\nUSAGE:\n\n* -c/--config <path> - path to the config file\n* -v/--verbose - enable verbose logging\n* -h/--help - show this help message\n* --dump-default-config - show the default config file and exit\n";

    /// Reads the arguments of the command line, the name of the program
    /// first.
    pub fn parse(args: &Vec<String>) -> (r: Result<Cli, CliError>)
        ensures
            match r {
                Ok(cli) => CliView::parsed(args.deep_view()) == Ok::<CliView, CliErrorView>(
                    cli.deep_view(),
                ),
                Err(e) => CliView::parsed(args.deep_view()) == Err::<CliView, CliErrorView>(
                    e.deep_view(),
                ),
            },
    {
        let mut s = Cli {
            config_path: None,
            verbose: false,
            help: false,
            dump_default_config: false,
        };
        let ghost all = args.deep_view();
        let mut i: usize = 1;
        if args.len() == 0 {
            return Ok(s);
        }
        while i < args.len()
            invariant
                1 <= i <= args.len(),
                all == args.deep_view(),
                s.deep_view().with_args(all, i as int) == CliView::parsed(all),
            decreases args.len() - i,
        {
            let val = args[i].as_str();
            assert(all[i as int] == val@);
            if same_text(val, "-c") || same_text(val, "--config") {
                if i + 1 < args.len() {
                    assert(all[i + 1] == args[i + 1]@);
                    s.config_path = Some(args[i + 1].clone());
                    i += 2;
                } else {
                    return Err(CliError::MissingConfigPath);
                }
            } else if same_text(val, "-v") || same_text(val, "--verbose") {
                s.verbose = true;
                i += 1;
            } else if same_text(val, "-h") || same_text(val, "--help") {
                s.help = true;
                i += 1;
            } else if same_text(val, "--dump-default-config") {
                s.dump_default_config = true;
                i += 1;
            } else {
                return Err(CliError::UnknownArgument { argument: args[i].clone() });
            }
        }
        Ok(s)
    }
}

} // verus!
