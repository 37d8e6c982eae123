//! Selecting an operation from the command-line arguments.
use vstd::prelude::*;
use crate::text::same_text;

verus! {

/// The operation whose usage line to show when its arguments are missing.
#[derive(Clone, Copy, Debug, PartialEq, Eq, Structural)]
pub enum Usage {
    /// No operation was named at all.
    General,
    Add,
    Edit,
    Load,
    ShowLogs,
    Delete,
}

/// Why the arguments select no operation.
pub enum CliError {
    /// Arguments the operation needs are missing.
    Usage(Usage),
    /// The first argument names no operation.
    UnknownOperation(String),
}

/// What `load`/`reload` applies to.
pub enum LoadTarget {
    /// Every command in the registry.
    All,
    /// The one command of this name.
    One(String),
}

/// An operation with its arguments.
pub enum Invocation {
    Add { name: String, source: Option<String> },
    Edit { name: String },
    Load { target: LoadTarget },
    ShowLogs { id: String },
    Delete { name: String, force: bool },
}

/// The argument at `i`, when there is one.
pub open spec fn arg_at(args: Seq<String>, i: int) -> Option<String> {
    if 0 <= i < args.len() {
        Some(args[i])
    } else {
        None
    }
}

/// What the arguments select. The first argument is the program's own name,
/// the second the operation; `load` and `reload` are synonyms, and
/// `delete <name> -y` skips the confirmation.
pub open spec fn selected(args: Seq<String>) -> Result<Invocation, CliError> {
    if args.len() < 2 {
        Err(CliError::Usage(Usage::General))
    } else {
        let op = args[1]@;
        if op == "add"@ {
            if args.len() < 3 {
                Err(CliError::Usage(Usage::Add))
            } else {
                Ok(Invocation::Add { name: args[2], source: arg_at(args, 3) })
            }
        } else if op == "edit"@ {
            if args.len() < 3 {
                Err(CliError::Usage(Usage::Edit))
            } else {
                Ok(Invocation::Edit { name: args[2] })
            }
        } else if op == "load"@ || op == "reload"@ {
            if args.len() < 3 {
                Err(CliError::Usage(Usage::Load))
            } else if args[2]@ == "all"@ {
                Ok(Invocation::Load { target: LoadTarget::All })
            } else {
                Ok(Invocation::Load { target: LoadTarget::One(args[2]) })
            }
        } else if op == "showlogs"@ {
            if args.len() < 3 {
                Err(CliError::Usage(Usage::ShowLogs))
            } else {
                Ok(Invocation::ShowLogs { id: args[2] })
            }
        } else if op == "delete"@ {
            if args.len() < 3 {
                Err(CliError::Usage(Usage::Delete))
            } else {
                Ok(
                    Invocation::Delete {
                        name: args[2],
                        force: args.len() > 3 && args[3]@ == "-y"@,
                    },
                )
            }
        } else {
            Err(CliError::UnknownOperation(args[1]))
        }
    }
}

/// Selects the operation that the command-line arguments ask for.
pub fn parse_invocation(args: &Vec<String>) -> (r: Result<Invocation, CliError>)
    ensures
        r == selected(args@),
{
    let n = args.len();
    if n < 2 {
        return Err(CliError::Usage(Usage::General));
    }
    let op = args[1].as_str();
    if same_text(op, "add") {
        if n < 3 {
            Err(CliError::Usage(Usage::Add))
        } else {
            let source = if n > 3 {
                Some(args[3].clone())
            } else {
                None
            };
            Ok(Invocation::Add { name: args[2].clone(), source })
        }
    } else if same_text(op, "edit") {
        if n < 3 {
            Err(CliError::Usage(Usage::Edit))
        } else {
            Ok(Invocation::Edit { name: args[2].clone() })
        }
    } else if same_text(op, "load") || same_text(op, "reload") {
        if n < 3 {
            Err(CliError::Usage(Usage::Load))
        } else if same_text(args[2].as_str(), "all") {
            Ok(Invocation::Load { target: LoadTarget::All })
        } else {
            Ok(Invocation::Load { target: LoadTarget::One(args[2].clone()) })
        }
    } else if same_text(op, "showlogs") {
        if n < 3 {
            Err(CliError::Usage(Usage::ShowLogs))
        } else {
            Ok(Invocation::ShowLogs { id: args[2].clone() })
        }
    } else if same_text(op, "delete") {
        if n < 3 {
            Err(CliError::Usage(Usage::Delete))
        } else {
            let force = n > 3 && same_text(args[3].as_str(), "-y");
            Ok(Invocation::Delete { name: args[2].clone(), force })
        }
    } else {
        Err(CliError::UnknownOperation(args[1].clone()))
    }
}

} // verus!
