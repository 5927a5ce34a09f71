use vstd::prelude::*;

verus! {

/// How a tag, correspondent or document type is matched against documents.
#[derive(Clone, Copy, Debug, PartialEq, Eq, Hash, Structural)]
pub enum MatchingAlgorithm {
    NoMatch,
    Any,
    All,
    Literal,
    Regex,
    Fuzzy,
    Auto,
}

/// The users and groups that hold one permission on an object.
#[derive(Clone, Debug, PartialEq, Eq)]
pub struct PermissionSet {
    pub users: Vec<i32>,
    pub groups: Vec<i32>,
}

/// Who may view an object, and who may change it.
#[derive(Clone, Debug, PartialEq, Eq)]
pub struct Permissions {
    pub view: PermissionSet,
    pub change: PermissionSet,
}

/// A correspondent, as the server describes it.
#[derive(Clone, Debug, PartialEq)]
pub struct Correspondent {
    pub id: i32,
    pub slug: String,
    pub document_count: i32,
    pub last_correspondence: Option<String>,
    pub user_can_change: bool,
    pub name: String,
    pub matches: String,
    pub matching_algorithm: MatchingAlgorithm,
    pub is_insensitive: bool,
    pub owner: i32,
    pub permissions: Permissions,
}

/// The value of a flag that is set unless the wire says otherwise.
pub fn const_true() -> (r: bool)
    ensures
        r,
{
    true
}

/// How a mail account's connection to its server is secured.
#[derive(Clone, Copy, Debug, PartialEq, Eq, Hash, Structural)]
pub enum ImapSecurity {
    NoEncryption,
    UseSSL,
    UseSTARTTLS,
}

/// The number that stands for a security mode on the wire.
pub open spec fn imap_security_code(s: ImapSecurity) -> u8 {
    match s {
        ImapSecurity::NoEncryption => 1,
        ImapSecurity::UseSSL => 2,
        ImapSecurity::UseSTARTTLS => 3,
    }
}

/// The security mode that a wire number stands for, if any.
pub open spec fn imap_security_of_code(c: u8) -> Option<ImapSecurity> {
    if c == 1 {
        Some(ImapSecurity::NoEncryption)
    } else if c == 2 {
        Some(ImapSecurity::UseSSL)
    } else if c == 3 {
        Some(ImapSecurity::UseSTARTTLS)
    } else {
        None
    }
}

impl ImapSecurity {
    /// The wire number of this mode.
    pub fn code(&self) -> (r: u8)
        ensures
            r == imap_security_code(*self),
    {
        match self {
            ImapSecurity::NoEncryption => 1,
            ImapSecurity::UseSSL => 2,
            ImapSecurity::UseSTARTTLS => 3,
        }
    }

    /// The mode that the wire number `c` stands for; `None` for a number
    /// that stands for none.
    pub fn from_code(c: u8) -> (r: Option<ImapSecurity>)
        ensures
            r == imap_security_of_code(c),
    {
        if c == 1 {
            Some(ImapSecurity::NoEncryption)
        } else if c == 2 {
            Some(ImapSecurity::UseSSL)
        } else if c == 3 {
            Some(ImapSecurity::UseSTARTTLS)
        } else {
            None
        }
    }
}

/// A security mode written as its wire number reads back as itself, and a
/// wire number that reads as a mode is that mode's number.
pub proof fn lemma_imap_security_code_round_trip(s: ImapSecurity, c: u8)
    ensures
        imap_security_of_code(imap_security_code(s)) == Some(s),
        imap_security_of_code(c) is Some ==> imap_security_code(imap_security_of_code(c)->0) == c,
{
}

/// The number that stands for a matching algorithm on the wire.
pub open spec fn matching_algorithm_code(m: MatchingAlgorithm) -> u8 {
    match m {
        MatchingAlgorithm::NoMatch => 0,
        MatchingAlgorithm::Any => 1,
        MatchingAlgorithm::All => 2,
        MatchingAlgorithm::Literal => 3,
        MatchingAlgorithm::Regex => 4,
        MatchingAlgorithm::Fuzzy => 5,
        MatchingAlgorithm::Auto => 6,
    }
}

/// The matching algorithm that a wire number stands for, if any.
pub open spec fn matching_algorithm_of_code(c: u8) -> Option<MatchingAlgorithm> {
    if c == 0 {
        Some(MatchingAlgorithm::NoMatch)
    } else if c == 1 {
        Some(MatchingAlgorithm::Any)
    } else if c == 2 {
        Some(MatchingAlgorithm::All)
    } else if c == 3 {
        Some(MatchingAlgorithm::Literal)
    } else if c == 4 {
        Some(MatchingAlgorithm::Regex)
    } else if c == 5 {
        Some(MatchingAlgorithm::Fuzzy)
    } else if c == 6 {
        Some(MatchingAlgorithm::Auto)
    } else {
        None
    }
}

impl MatchingAlgorithm {
    /// The wire number of this algorithm.
    pub fn code(&self) -> (r: u8)
        ensures
            r == matching_algorithm_code(*self),
    {
        match self {
            MatchingAlgorithm::NoMatch => 0,
            MatchingAlgorithm::Any => 1,
            MatchingAlgorithm::All => 2,
            MatchingAlgorithm::Literal => 3,
            MatchingAlgorithm::Regex => 4,
            MatchingAlgorithm::Fuzzy => 5,
            MatchingAlgorithm::Auto => 6,
        }
    }

    /// The algorithm that the wire number `c` stands for; `None` for a
    /// number that stands for none.
    pub fn from_code(c: u8) -> (r: Option<MatchingAlgorithm>)
        ensures
            r == matching_algorithm_of_code(c),
    {
        if c == 0 {
            Some(MatchingAlgorithm::NoMatch)
        } else if c == 1 {
            Some(MatchingAlgorithm::Any)
        } else if c == 2 {
            Some(MatchingAlgorithm::All)
        } else if c == 3 {
            Some(MatchingAlgorithm::Literal)
        } else if c == 4 {
            Some(MatchingAlgorithm::Regex)
        } else if c == 5 {
            Some(MatchingAlgorithm::Fuzzy)
        } else if c == 6 {
            Some(MatchingAlgorithm::Auto)
        } else {
            None
        }
    }
}

/// A matching algorithm written as its wire number reads back as itself, and
/// a wire number that reads as an algorithm is that algorithm's number.
pub proof fn lemma_matching_algorithm_code_round_trip(m: MatchingAlgorithm, c: u8)
    ensures
        matching_algorithm_of_code(matching_algorithm_code(m)) == Some(m),
        matching_algorithm_of_code(c) is Some ==> matching_algorithm_code(
            matching_algorithm_of_code(c)->0,
        ) == c,
{
}

} // verus!
