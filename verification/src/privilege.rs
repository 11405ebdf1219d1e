//! The unprivileged account that the proxy is run under.
//!
//! The account is looked for among a fixed list of names, in order of
//! priority: for each name the host is asked for the user id and, where that
//! gives a number, for the group id. The first name for which both give a
//! number is the account. If a query cannot be run at all the search ends
//! without an account, and the proxy runs with the caller's privileges.

use vstd::prelude::*;
use vstd::string::*;
use crate::host::{Command, CommandView, Effect, EffectView, Meaning, Reply, ReplyView};
use crate::platform::strings;
use crate::text::{parse_trimmed_u32, parse_u32, trimmed};

verus! {

/// The user and group id of the account.
#[derive(Clone, Copy, Debug, PartialEq, Eq, Structural)]
pub struct PrivilegeContext {
    pub uid: u32,
    pub gid: u32,
}

/// How many names are tried.
pub const CANDIDATES: u8 = 3;

/// The names that are tried, by priority.
pub open spec fn candidate_name(index: u8) -> Seq<char> {
    if index == 0 {
        "debian-tor"@
    } else if index == 1 {
        "tor"@
    } else {
        "nobody"@
    }
}

/// Where the search stands.
#[derive(Clone, Copy, Debug, PartialEq, Eq, Structural)]
pub enum Search {
    /// The user id of the candidate is being asked for.
    User,
    /// The group id of the candidate is being asked for; the user id is known.
    Group { uid: u32 },
    /// The account was found.
    Found { account: PrivilegeContext },
    /// No account was found.
    Missing,
}

/// The search for the account.
#[derive(Clone, Copy, Debug, PartialEq, Eq, Structural)]
pub struct AccountProbe {
    /// The candidate that is being asked about.
    pub candidate: u8,
    pub search: Search,
}

/// The query for an id of `name`; `flag` says which id.
pub open spec fn id_query(flag: Seq<char>, name: Seq<char>) -> EffectView {
    EffectView::Run {
        command: CommandView { program: "id"@, args: seq![flag, name] },
        meaning: Meaning::Neutral,
    }
}

/// The number that a query printed, if the reply holds one.
pub open spec fn printed_id(reply: ReplyView) -> Option<u32> {
    match reply {
        ReplyView::Exited { success, stdout, stderr } => parse_u32(trimmed(stdout)),
        _ => None,
    }
}

/// Whether the reply says that the query ran and succeeded.
pub open spec fn succeeded(reply: ReplyView) -> bool {
    reply matches ReplyView::Exited { success, stdout, stderr } && success
}

impl AccountProbe {
    /// The search before its first query.
    pub open spec fn initial() -> AccountProbe {
        AccountProbe { candidate: 0, search: Search::User }
    }

    /// Whether the search has come to its end.
    pub open spec fn finished(self) -> bool {
        self.search is Found || self.search is Missing
    }

    /// The account, once the search has finished.
    pub open spec fn account(self) -> Option<PrivilegeContext> {
        match self.search {
            Search::Found { account } => Some(account),
            _ => None,
        }
    }

    /// What the search asks of the host now, if it has not finished.
    pub open spec fn wants(self) -> Option<EffectView> {
        match self.search {
            Search::User => Some(id_query("-u"@, candidate_name(self.candidate))),
            Search::Group { uid } => Some(id_query("-g"@, candidate_name(self.candidate))),
            _ => None,
        }
    }

    /// The search when the candidate has turned out not to be the account.
    pub open spec fn next_candidate(self) -> AccountProbe {
        if self.candidate + 1 < CANDIDATES {
            AccountProbe { candidate: (self.candidate + 1) as u8, search: Search::User }
        } else {
            AccountProbe { search: Search::Missing, ..self }
        }
    }

    /// The search after the host's reply to its query.
    pub open spec fn after(self, reply: ReplyView) -> AccountProbe {
        match self.search {
            Search::User => if reply is Failed {
                AccountProbe { search: Search::Missing, ..self }
            } else if succeeded(reply) && printed_id(reply) is Some {
                AccountProbe { search: Search::Group { uid: printed_id(reply).unwrap() }, ..self }
            } else {
                self.next_candidate()
            },
            Search::Group { uid } => if reply is Failed {
                AccountProbe { search: Search::Missing, ..self }
            } else if printed_id(reply) is Some {
                AccountProbe {
                    search: Search::Found {
                        account: PrivilegeContext { uid, gid: printed_id(reply).unwrap() },
                    },
                    ..self
                }
            } else {
                self.next_candidate()
            },
            _ => self,
        }
    }

    /// Starts the search.
    pub fn new() -> (p: AccountProbe)
        ensures
            p == AccountProbe::initial(),
    {
        AccountProbe { candidate: 0, search: Search::User }
    }

    /// Whether the search has come to its end.
    pub fn is_finished(&self) -> (b: bool)
        ensures
            b == self.finished(),
    {
        match self.search {
            Search::Found { account } => true,
            Search::Missing => true,
            _ => false,
        }
    }

    /// The account, once the search has finished.
    pub fn found(&self) -> (a: Option<PrivilegeContext>)
        ensures
            a == self.account(),
    {
        match self.search {
            Search::Found { account } => Some(account),
            _ => None,
        }
    }

    fn name(&self) -> (s: &'static str)
        ensures
            s@ == candidate_name(self.candidate),
    {
        if self.candidate == 0 {
            "debian-tor"
        } else if self.candidate == 1 {
            "tor"
        } else {
            "nobody"
        }
    }

    fn query(flag: &str, name: &str) -> (e: Effect)
        ensures
            e@ == id_query(flag@, name@),
    {
        let command = Command { program: String::from_str("id"), args: strings(&[flag, name]) };
        assert(command@.args =~= seq![flag@, name@]);
        Effect::Run { command, meaning: Meaning::Neutral }
    }

    /// What the search asks of the host now, if it has not finished.
    pub fn current(&self) -> (e: Option<Effect>)
        ensures
            e is Some <==> self.wants() is Some,
            e is Some ==> Some(e.unwrap()@) == self.wants(),
    {
        match self.search {
            Search::User => Some(Self::query("-u", self.name())),
            Search::Group { uid } => Some(Self::query("-g", self.name())),
            _ => None,
        }
    }

    fn advance(&mut self)
        ensures
            *final(self) == old(self).next_candidate(),
    {
        if self.candidate < CANDIDATES - 1 {
            self.candidate = self.candidate + 1;
            self.search = Search::User;
        } else {
            self.search = Search::Missing;
        }
    }

    fn printed(reply: &Reply) -> (id: Option<u32>)
        ensures
            id == printed_id(reply@),
    {
        match reply {
            Reply::Exited { success, stdout, stderr } => parse_trimmed_u32(stdout.as_str()),
            _ => None,
        }
    }

    /// Takes the host's reply to the query.
    pub fn record(&mut self, reply: &Reply)
        ensures
            *final(self) == old(self).after(reply@),
    {
        let failed = match reply {
            Reply::Failed(_) => true,
            _ => false,
        };
        let ran_well = match reply {
            Reply::Exited { success, stdout, stderr } => *success,
            _ => false,
        };
        match self.search {
            Search::User => {
                if failed {
                    self.search = Search::Missing;
                } else {
                    match Self::printed(reply) {
                        Some(uid) => {
                            if ran_well {
                                self.search = Search::Group { uid };
                            } else {
                                self.advance();
                            }
                        },
                        None => {
                            self.advance();
                        },
                    }
                }
            },
            Search::Group { uid } => {
                if failed {
                    self.search = Search::Missing;
                } else {
                    match Self::printed(reply) {
                        Some(gid) => {
                            self.search = Search::Found { account: PrivilegeContext { uid, gid } };
                        },
                        None => {
                            self.advance();
                        },
                    }
                }
            },
            _ => {},
        }
    }
}

/// The search never goes back to a name of higher priority, and it finds an
/// account only from the two numbers that the host printed for one name.
pub proof fn lemma_search_goes_forward(probe: AccountProbe, reply: ReplyView)
    ensures
        probe.after(reply).candidate >= probe.candidate,
        !probe.finished() && probe.after(reply).search is Found ==> probe.search is Group
            && printed_id(reply) is Some && probe.after(reply).account() == Some(
            PrivilegeContext { uid: probe.search->uid, gid: printed_id(reply).unwrap() },
        ),
{
}

} // verus!
