//! The command line: what the arguments ask for, and the help text.

use vstd::prelude::*;
use crate::access_token::SP_DC_INSTRUCTIONS;

verus! {

/// The command line once its flags are told from the rest.
#[derive(Debug, PartialEq, Eq)]
pub struct Flags {
    /// The arguments that are no flags, in their order.
    pub free: Vec<String>,
    /// Whether help was asked for.
    pub help: bool,
    /// Whether changes are wanted.
    pub mutate: bool,
}

/// What a [`Flags`] holds, its strings as characters.
pub struct FlagsView {
    pub free: Seq<Seq<char>>,
    pub help: bool,
    pub mutate: bool,
}

impl View for Flags {
    type V = FlagsView;

    open spec fn view(&self) -> FlagsView {
        FlagsView { free: self.free.deep_view(), help: self.help, mutate: self.mutate }
    }
}

/// What a command line asks for.
#[derive(Debug, PartialEq, Eq)]
pub enum Invocation {
    /// An import with the two cookies, with or without changes.
    Run { sp_dc: String, sp_key: String, mutate: bool },
    /// The help text, after the complaint if there is one, and an exit with
    /// the given status.
    Usage { complaint: Option<String>, status: u8 },
}

/// What an [`Invocation`] holds, its strings as characters.
pub enum InvocationView {
    Run { sp_dc: Seq<char>, sp_key: Seq<char>, mutate: bool },
    Usage { complaint: Option<Seq<char>>, status: u8 },
}

impl View for Invocation {
    type V = InvocationView;

    open spec fn view(&self) -> InvocationView {
        match self {
            Invocation::Run { sp_dc, sp_key, mutate } => InvocationView::Run {
                sp_dc: sp_dc@,
                sp_key: sp_key@,
                mutate: *mutate,
            },
            Invocation::Usage { complaint, status } => InvocationView::Usage {
                complaint: complaint.deep_view(),
                status: *status,
            },
        }
    }
}

/// What a command line asks for. Flags that could not be read, and any
/// number of other arguments but two, end in the help text and status 2;
/// this is looked at before the help flag, which ends in status 0.
pub open spec fn invocation_of(parsed: Result<FlagsView, Seq<char>>) -> InvocationView {
    match parsed {
        Err(complaint) => InvocationView::Usage { complaint: Some(complaint), status: 2 },
        Ok(flags) => if flags.free.len() != 2 {
            InvocationView::Usage { complaint: None, status: 2 }
        } else if flags.help {
            InvocationView::Usage { complaint: None, status: 0 }
        } else {
            InvocationView::Run { sp_dc: flags.free[0], sp_key: flags.free[1], mutate: flags.mutate }
        },
    }
}

/// Flags or the complaint about them, their strings as characters.
pub open spec fn parsed_view(parsed: Result<Flags, String>) -> Result<FlagsView, Seq<char>> {
    match parsed {
        Ok(flags) => Ok(flags@),
        Err(complaint) => Err(complaint@),
    }
}

/// Decides what a command line asks for.
pub fn invocation(parsed: &Result<Flags, String>) -> (r: Invocation)
    ensures
        r@ == invocation_of(parsed_view(*parsed)),
{
    match parsed {
        Err(complaint) => Invocation::Usage { complaint: Some(complaint.clone()), status: 2 },
        Ok(flags) => {
            if flags.free.len() != 2 {
                Invocation::Usage { complaint: None, status: 2 }
            } else if flags.help {
                Invocation::Usage { complaint: None, status: 0 }
            } else {
                Invocation::Run {
                    sp_dc: flags.free[0].clone(),
                    sp_key: flags.free[1].clone(),
                    mutate: flags.mutate,
                }
            }
        },
    }
}

/// The help text for a program called `program`.
pub open spec fn usage_text(program: Seq<char>) -> Seq<char> {
    "usage: "@ + program
        + " [--mutate] <sp_dc> <sp_key>\n\nStandard input should be JSON from the\nhttps://scrobble.growl.space/api/v1/scrobbled API endpoint.\n\nTo obtain sp_dc and sp_key:\n"@
        + SP_DC_INSTRUCTIONS@
}

/// Writes the help text.
pub fn usage(program: &str) -> (r: String)
    ensures
        r@ == usage_text(program@),
{
    let mut buf = String::from_str("usage: ");
    buf.append(program);
    buf.append(
        " [--mutate] <sp_dc> <sp_key>\n\nStandard input should be JSON from the\nhttps://scrobble.growl.space/api/v1/scrobbled API endpoint.\n\nTo obtain sp_dc and sp_key:\n",
    );
    buf.append(SP_DC_INSTRUCTIONS);
    buf
}

} // verus!
