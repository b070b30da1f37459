use vstd::prelude::*;

verus! {

/// The identity of a native object that conforms to the error
/// recovery-attempting protocol.
#[derive(Clone, Copy, Debug, PartialEq, Eq, Structural)]
pub struct NSErrorRecoveryAttempting {
    pub object: usize,
}

/// Abstract state of an error: what each accessor reports.
pub struct NSErrorModel {
    pub domain: Seq<char>,
    pub code: int,
    pub localized_description: Seq<char>,
    pub localized_failure_reason: Option<Seq<char>>,
    pub localized_recovery_suggestion: Option<Seq<char>>,
    pub recovery_attempter: Option<NSErrorRecoveryAttempting>,
    pub help_anchor: Option<Seq<char>>,
}

/// Information about an error condition: a domain, a domain-specific error
/// code, and application-specific information from the user info
/// dictionary.
///
/// The localized description is always present: where the user info holds
/// none, the native runtime composes one from the domain and code, and that
/// text is what this value carries.
pub struct NSError {
    domain: String,
    code: isize,
    localized_description: String,
    localized_failure_reason: Option<String>,
    localized_recovery_suggestion: Option<String>,
    recovery_attempter: Option<NSErrorRecoveryAttempting>,
    help_anchor: Option<String>,
}

/// The character sequence of an optional string.
pub open spec fn opt_view(o: Option<String>) -> Option<Seq<char>> {
    match o {
        Some(s) => Some(s@),
        None => None,
    }
}

impl View for NSError {
    type V = NSErrorModel;

    closed spec fn view(&self) -> NSErrorModel {
        NSErrorModel {
            domain: self.domain@,
            code: self.code as int,
            localized_description: self.localized_description@,
            localized_failure_reason: opt_view(self.localized_failure_reason),
            localized_recovery_suggestion: opt_view(self.localized_recovery_suggestion),
            recovery_attempter: self.recovery_attempter,
            help_anchor: opt_view(self.help_anchor),
        }
    }
}

fn opt_str(o: &Option<String>) -> (r: Option<&str>)
    ensures
        match (o, r) {
            (Some(s), Some(t)) => t@ == s@,
            (None, None) => true,
            _ => false,
        },
{
    match o {
        Some(s) => Some(s.as_str()),
        None => None,
    }
}

impl NSError {
    /// Creates an error in `domain` with `code`, whose localized description
    /// is `localized_description` and whose other user-info entries are
    /// absent.
    pub fn new(domain: String, code: isize, localized_description: String) -> (r: Self)
        ensures
            r@ == (NSErrorModel {
                domain: domain@,
                code: code as int,
                localized_description: localized_description@,
                localized_failure_reason: None,
                localized_recovery_suggestion: None,
                recovery_attempter: None,
                help_anchor: None,
            }),
    {
        NSError {
            domain,
            code,
            localized_description,
            localized_failure_reason: None,
            localized_recovery_suggestion: None,
            recovery_attempter: None,
            help_anchor: None,
        }
    }

    /// Returns the error code. Error codes are domain-specific.
    pub fn code(&self) -> (r: isize)
        ensures
            r as int == self@.code,
    {
        self.code
    }

    /// Returns the error domain.
    pub fn domain(&self) -> (r: &str)
        ensures
            r@ == self@.domain,
    {
        self.domain.as_str()
    }

    /// Returns the localized description of the error.
    pub fn localized_description(&self) -> (r: &str)
        ensures
            r@ == self@.localized_description,
    {
        self.localized_description.as_str()
    }

    /// Returns the localized explanation of the reason for the error, if the
    /// user info holds one.
    pub fn localized_failure_reason(&self) -> (r: Option<&str>)
        ensures
            r.is_some() == self@.localized_failure_reason.is_some(),
            r.is_some() ==> r.unwrap()@ == self@.localized_failure_reason.unwrap(),
    {
        opt_str(&self.localized_failure_reason)
    }

    /// Returns the localized recovery suggestion for the error, if the user
    /// info holds one.
    pub fn localized_recovery_suggestion(&self) -> (r: Option<&str>)
        ensures
            r.is_some() == self@.localized_recovery_suggestion.is_some(),
            r.is_some() ==> r.unwrap()@ == self@.localized_recovery_suggestion.unwrap(),
    {
        opt_str(&self.localized_recovery_suggestion)
    }

    /// Returns the object that attempts recovery from the error, if the user
    /// info holds one.
    pub fn recovery_attempter(&self) -> (r: Option<NSErrorRecoveryAttempting>)
        ensures
            r == self@.recovery_attempter,
    {
        self.recovery_attempter
    }

    /// Returns the help anchor of the error, if the user info holds one.
    pub fn help_anchor(&self) -> (r: Option<&str>)
        ensures
            r.is_some() == self@.help_anchor.is_some(),
            r.is_some() ==> r.unwrap()@ == self@.help_anchor.unwrap(),
    {
        opt_str(&self.help_anchor)
    }

    /// The text that displaying the error shows: its localized description.
    pub fn to_display_string(&self) -> (r: String)
        ensures
            r@ == self@.localized_description,
    {
        self.localized_description.clone()
    }

    /// Returns this error with its localized failure reason set to `reason`.
    pub fn with_localized_failure_reason(self, reason: String) -> (r: Self)
        ensures
            r@ == (NSErrorModel { localized_failure_reason: Some(reason@), ..self@ }),
    {
        NSError { localized_failure_reason: Some(reason), ..self }
    }

    /// Returns this error with its localized recovery suggestion set to
    /// `suggestion`.
    pub fn with_localized_recovery_suggestion(self, suggestion: String) -> (r: Self)
        ensures
            r@ == (NSErrorModel { localized_recovery_suggestion: Some(suggestion@), ..self@ }),
    {
        NSError { localized_recovery_suggestion: Some(suggestion), ..self }
    }

    /// Returns this error with `attempter` as the object that attempts
    /// recovery from it.
    pub fn with_recovery_attempter(self, attempter: NSErrorRecoveryAttempting) -> (r: Self)
        ensures
            r@ == (NSErrorModel { recovery_attempter: Some(attempter), ..self@ }),
    {
        NSError { recovery_attempter: Some(attempter), ..self }
    }

    /// Returns this error with its help anchor set to `anchor`.
    pub fn with_help_anchor(self, anchor: String) -> (r: Self)
        ensures
            r@ == (NSErrorModel { help_anchor: Some(anchor@), ..self@ }),
    {
        NSError { help_anchor: Some(anchor), ..self }
    }
}

} // verus!
