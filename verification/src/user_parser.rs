//! The identity that the daemon takes on when it gives up its privileges,
//! and how the name given on the command line is resolved to it.

use vstd::prelude::*;
use vstd::string::*;

verus! {

/// What a `ParsedUser` holds.
pub struct UserView {
    pub uid: u32,
    pub name: Seq<char>,
}

/// A user of the system, resolved from a name: the identity to switch to.
#[derive(Clone, Debug)]
pub struct ParsedUser {
    uid: u32,
    name: String,
}

impl View for ParsedUser {
    type V = UserView;

    closed spec fn view(&self) -> UserView {
        UserView { uid: self.uid, name: self.name@ }
    }
}

impl ParsedUser {
    pub fn new(uid: u32, name: String) -> (user: ParsedUser)
        ensures
            user@ == (UserView { uid, name: name@ }),
    {
        ParsedUser { uid, name }
    }

    /// The numeric id of the user.
    pub fn uid(&self) -> (uid: u32)
        ensures
            uid == self@.uid,
    {
        self.uid
    }

    /// The name of the user, which is also how the user is shown.
    pub fn name(&self) -> (name: &str)
        ensures
            name@ == self@.name,
    {
        self.name.as_str()
    }
}

/// What the user database answered when it was asked for a name.
#[derive(Clone, Debug)]
pub enum UserLookup {
    /// The name belongs to this user.
    Found { uid: u32, name: String },
    /// No user has the name.
    Missing,
    /// The database could not be read; `detail` says why.
    Failed { detail: String },
}

/// What a `UserLookup` holds.
pub enum LookupView {
    Found { uid: u32, name: Seq<char> },
    Missing,
    Failed { detail: Seq<char> },
}

impl View for UserLookup {
    type V = LookupView;

    open spec fn view(&self) -> LookupView {
        match self {
            UserLookup::Found { uid, name } => LookupView::Found { uid: *uid, name: name@ },
            UserLookup::Missing => LookupView::Missing,
            UserLookup::Failed { detail } => LookupView::Failed { detail: detail@ },
        }
    }
}

/// Why a value was not accepted as a user.
#[derive(Clone, Copy, Debug, PartialEq, Eq, Structural)]
pub enum FailureKind {
    /// The value is not text.
    NotText,
    /// No user has the name: the configuration is wrong.
    UnknownUser,
    /// The user database could not be read.
    LookupFailed,
}

/// A value that was not accepted, with what is to be reported of it.
#[derive(Clone, Debug)]
pub struct ParseFailure {
    pub kind: FailureKind,
    /// The argument that the value was given for, if it is known.
    pub invalid_arg: Option<String>,
    /// The value, where it is text.
    pub invalid_value: Option<String>,
    /// What went wrong with the lookup, where one was made.
    pub detail: Option<String>,
}

/// What a `ParseFailure` holds.
pub struct FailureView {
    pub kind: FailureKind,
    pub invalid_arg: Option<Seq<char>>,
    pub invalid_value: Option<Seq<char>>,
    pub detail: Option<Seq<char>>,
}

/// The text of an optional string.
pub open spec fn text_of(s: Option<String>) -> Option<Seq<char>> {
    match s {
        Some(s) => Some(s@),
        None => None,
    }
}

/// The text of an optional string slice.
pub open spec fn slice_text_of(s: Option<&str>) -> Option<Seq<char>> {
    match s {
        Some(s) => Some(s@),
        None => None,
    }
}

impl View for ParseFailure {
    type V = FailureView;

    open spec fn view(&self) -> FailureView {
        FailureView {
            kind: self.kind,
            invalid_arg: text_of(self.invalid_arg),
            invalid_value: text_of(self.invalid_value),
            detail: text_of(self.detail),
        }
    }
}

/// What `parse_ref` returns, taken by its view.
pub open spec fn parsed_view(result: Result<ParsedUser, ParseFailure>) -> Result<
    UserView,
    FailureView,
> {
    match result {
        Ok(user) => Ok(user@),
        Err(failure) => Err(failure@),
    }
}

/// The report that no user has the name `name`.
pub open spec fn not_found_text(name: Seq<char>) -> Seq<char> {
    "User "@ + name + " not found"@
}

/// The user that a value stands for, or what is reported of the value.
///
/// A value that is not text is refused without a lookup. A value that is text
/// stands for the user that the lookup found; where it found none or failed,
/// the value is reported together with the reason.
pub open spec fn spec_parse(
    arg: Option<Seq<char>>,
    value: Option<Seq<char>>,
    lookup: LookupView,
) -> Result<UserView, FailureView> {
    match value {
        None => Err(
            FailureView {
                kind: FailureKind::NotText,
                invalid_arg: arg,
                invalid_value: None,
                detail: None,
            },
        ),
        Some(text) => match lookup {
            LookupView::Found { uid, name } => Ok(UserView { uid, name }),
            LookupView::Missing => Err(
                FailureView {
                    kind: FailureKind::UnknownUser,
                    invalid_arg: arg,
                    invalid_value: Some(text),
                    detail: Some(not_found_text(text)),
                },
            ),
            LookupView::Failed { detail } => Err(
                FailureView {
                    kind: FailureKind::LookupFailed,
                    invalid_arg: arg,
                    invalid_value: Some(text),
                    detail: Some(detail),
                },
            ),
        },
    }
}

/// An owned copy of an optional string slice.
fn owned(s: Option<&str>) -> (copy: Option<String>)
    ensures
        text_of(copy) == slice_text_of(s),
{
    match s {
        Some(s) => Some(s.to_owned()),
        None => None,
    }
}

/// Resolves the value of the user argument to a user.
#[derive(Clone, Copy, Debug)]
pub struct ParsedUserParser;

impl ParsedUserParser {
    /// Decides what the value of the user argument stands for.
    ///
    /// `arg` names the argument, `value` is its value where that is text, and
    /// `lookup` is what the user database answered for the value; it is not
    /// read where the value is not text.
    pub fn parse_ref(&self, arg: Option<&str>, value: Option<&str>, lookup: UserLookup) -> (result:
        Result<ParsedUser, ParseFailure>)
        ensures
            parsed_view(result) == spec_parse(slice_text_of(arg), slice_text_of(value), lookup@),
    {
        let invalid_arg = owned(arg);
        let text = match value {
            Some(text) => text,
            None => {
                return Err(
                    ParseFailure {
                        kind: FailureKind::NotText,
                        invalid_arg,
                        invalid_value: None,
                        detail: None,
                    },
                );
            },
        };
        match lookup {
            UserLookup::Found { uid, name } => Ok(ParsedUser::new(uid, name)),
            UserLookup::Missing => {
                let mut detail = String::from_str("User ");
                detail.append(text);
                detail.append(" not found");
                Err(
                    ParseFailure {
                        kind: FailureKind::UnknownUser,
                        invalid_arg,
                        invalid_value: Some(text.to_owned()),
                        detail: Some(detail),
                    },
                )
            },
            UserLookup::Failed { detail } => Err(
                ParseFailure {
                    kind: FailureKind::LookupFailed,
                    invalid_arg,
                    invalid_value: Some(text.to_owned()),
                    detail: Some(detail),
                },
            ),
        }
    }
}

} // verus!
