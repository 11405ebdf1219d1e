//! Finding a program on the host: the first of a list of places that exists,
//! or a fallback that the host resolves by its search path.

use vstd::prelude::*;
use vstd::string::*;
use crate::config::option_text;
use crate::host::{Effect, EffectView, Reply, ReplyView};
use crate::platform::strings;
use crate::text::texts;

verus! {

/// The places where the proxy's program is commonly installed, in the order
/// in which they are tried.
pub open spec fn tor_places() -> Seq<Seq<char>> {
    seq![
        "/usr/bin/tor"@,
        "/usr/sbin/tor"@,
        "/usr/local/bin/tor"@,
        "/opt/homebrew/bin/tor"@,
        "/opt/local/bin/tor"@,
    ]
}

/// The name under which the proxy's program is started where none of the
/// common places has it.
pub open spec fn tor_fallback() -> Seq<char> {
    "tor"@
}

/// The mathematical value of a [`PathProbe`].
pub struct PathProbeView {
    pub places: Seq<Seq<char>>,
    /// How many places have been asked about.
    pub next: nat,
    pub fallback: Seq<char>,
    /// The place that exists, once one was found.
    pub found: Option<Seq<char>>,
}

impl PathProbeView {
    /// The search before its first question.
    pub open spec fn start(places: Seq<Seq<char>>, fallback: Seq<char>) -> PathProbeView {
        PathProbeView { places, next: 0, fallback, found: None }
    }

    /// Whether the search has come to its end.
    pub open spec fn finished(self) -> bool {
        self.found is Some || self.next >= self.places.len()
    }

    /// What the search asks of the host now, if it has not finished.
    pub open spec fn wants(self) -> Option<EffectView> {
        if self.finished() {
            None
        } else {
            Some(EffectView::PathExists { path: self.places[self.next as int] })
        }
    }

    /// The search after the host's reply to its question.
    pub open spec fn after(self, reply: ReplyView) -> PathProbeView {
        if self.finished() {
            self
        } else if reply == ReplyView::Exists(true) {
            PathProbeView {
                found: Some(self.places[self.next as int]),
                next: self.next + 1,
                ..self
            }
        } else {
            PathProbeView { next: self.next + 1, ..self }
        }
    }

    /// The search after a sequence of replies.
    pub open spec fn after_all(self, replies: Seq<ReplyView>) -> PathProbeView
        decreases replies.len(),
    {
        if replies.len() == 0 {
            self
        } else {
            self.after(replies[0]).after_all(replies.drop_first())
        }
    }

    /// What the search gives: the place that exists, or the fallback.
    pub open spec fn choice(self) -> Seq<char> {
        match self.found {
            Some(place) => place,
            None => self.fallback,
        }
    }
}

/// A search through a list of places.
#[derive(Debug)]
pub struct PathProbe {
    places: Vec<String>,
    next: usize,
    fallback: String,
    found: Option<String>,
}

impl View for PathProbe {
    type V = PathProbeView;

    closed spec fn view(&self) -> PathProbeView {
        PathProbeView {
            places: texts(self.places@),
            next: self.next as nat,
            fallback: self.fallback@,
            found: option_text(self.found),
        }
    }
}

impl PathProbe {
    #[verifier::type_invariant]
    spec fn in_range(self) -> bool {
        self.next <= self.places.len()
    }

    /// Starts a search through `places`, with `fallback` for when none exists.
    pub fn new(places: Vec<String>, fallback: String) -> (p: PathProbe)
        ensures
            p@ == PathProbeView::start(texts(places@), fallback@),
    {
        PathProbe { places, next: 0, fallback, found: None }
    }

    /// Starts the search for the proxy's program.
    pub fn for_tor() -> (p: PathProbe)
        ensures
            p@ == PathProbeView::start(tor_places(), tor_fallback()),
    {
        let places = strings(
            &[
                "/usr/bin/tor",
                "/usr/sbin/tor",
                "/usr/local/bin/tor",
                "/opt/homebrew/bin/tor",
                "/opt/local/bin/tor",
            ],
        );
        assert(texts(places@) =~= tor_places());
        PathProbe::new(places, String::from_str("tor"))
    }

    /// Whether the search has come to its end.
    pub fn is_finished(&self) -> (b: bool)
        ensures
            b == self@.finished(),
    {
        self.found.is_some() || self.next >= self.places.len()
    }

    /// What the search asks of the host now, if it has not finished.
    pub fn current(&self) -> (e: Option<Effect>)
        ensures
            e is Some <==> self@.wants() is Some,
            e is Some ==> Some(e.unwrap()@) == self@.wants(),
    {
        if self.is_finished() {
            None
        } else {
            Some(Effect::PathExists { path: self.places[self.next].clone() })
        }
    }

    /// Takes the host's reply to the question.
    pub fn record(&mut self, reply: &Reply)
        ensures
            final(self)@ == old(self)@.after(reply@),
    {
        proof {
            use_type_invariant(&*self);
        }
        if !self.is_finished() {
            let exists = match reply {
                Reply::Exists(b) => *b,
                _ => false,
            };
            if exists {
                self.found = Some(self.places[self.next].clone());
            }
            self.next = self.next + 1;
        }
    }

    /// What the search gives: the place that exists, or the fallback.
    pub fn result(&self) -> (s: String)
        ensures
            s@ == self@.choice(),
    {
        match &self.found {
            Some(place) => place.clone(),
            None => self.fallback.clone(),
        }
    }
}

/// Whether the host says of none of the places asked about that it exists.
pub open spec fn none_exists(replies: Seq<ReplyView>) -> bool {
    forall|i: int| 0 <= i < replies.len() ==> #[trigger] replies[i] != ReplyView::Exists(true)
}

/// The first place that exists is taken, and no place is asked about after
/// it: if none of the first `k` places exists and the next one does, the
/// search ends there with that place.
pub proof fn lemma_first_existing_place_is_taken(
    places: Seq<Seq<char>>,
    fallback: Seq<char>,
    replies: Seq<ReplyView>,
)
    requires
        replies.len() < places.len(),
        none_exists(replies),
    ensures
        PathProbeView::start(places, fallback).after_all(replies) == (PathProbeView {
            places,
            next: replies.len(),
            fallback,
            found: None,
        }),
        PathProbeView::start(places, fallback).after_all(replies).after(
            ReplyView::Exists(true),
        ).choice() == places[replies.len() as int],
        PathProbeView::start(places, fallback).after_all(replies).after(
            ReplyView::Exists(true),
        ).finished(),
{
    lemma_misses_advance(PathProbeView::start(places, fallback), replies);
}

/// Where no place exists the fallback is what the search gives, after every
/// place was asked about once.
pub proof fn lemma_fallback_when_nothing_exists(
    places: Seq<Seq<char>>,
    fallback: Seq<char>,
    replies: Seq<ReplyView>,
)
    requires
        replies.len() == places.len(),
        none_exists(replies),
    ensures
        PathProbeView::start(places, fallback).after_all(replies).finished(),
        PathProbeView::start(places, fallback).after_all(replies).choice() == fallback,
{
    lemma_misses_advance(PathProbeView::start(places, fallback), replies);
}

/// A run of replies that name no existing place moves the search on by one
/// place each.
pub proof fn lemma_misses_advance(probe: PathProbeView, replies: Seq<ReplyView>)
    requires
        probe.found is None,
        probe.next + replies.len() <= probe.places.len(),
        none_exists(replies),
    ensures
        probe.after_all(replies) == (PathProbeView {
            next: probe.next + replies.len(),
            ..probe
        }),
    decreases replies.len(),
{
    if replies.len() > 0 {
        let rest = replies.drop_first();
        assert(replies[0] != ReplyView::Exists(true));
        assert forall|i: int| 0 <= i < rest.len() implies #[trigger] rest[i] != ReplyView::Exists(
            true,
        ) by {
            assert(rest[i] == replies[i + 1]);
        }
        lemma_misses_advance(probe.after(replies[0]), rest);
    }
}

} // verus!
