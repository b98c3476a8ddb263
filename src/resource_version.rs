//! Resource-version cursor of a chain of watch requests, and the candidates
//! that advance it.

use vstd::prelude::*;

verus! {

/// The metadata of a watched object, as far as the cursor logic reads it.
#[derive(Debug, Clone)]
pub struct ObjectMeta {
    pub resource_version: Option<String>,
}

/// A watched object: only its (optional) metadata matters to the cursor.
#[derive(Debug, Clone)]
pub struct Object {
    pub metadata: Option<ObjectMeta>,
}

/// One change event of a watch stream.
#[derive(Debug, Clone)]
pub enum WatchEvent {
    Added(Object),
    Modified(Object),
    Deleted(Object),
    Bookmark(Object),
    ErrorStatus,
    ErrorOther,
}

/// The version that an object carries, if it carries a usable one:
/// metadata present and a non-empty resource version in it.
pub open spec fn object_version(object: Object) -> Option<Seq<char>> {
    match object.metadata {
        Some(meta) => match meta.resource_version {
            Some(v) => if v@.len() > 0 {
                Some(v@)
            } else {
                None
            },
            None => None,
        },
        None => None,
    }
}

/// The version that an event carries: that of its object, none for an error frame.
pub open spec fn event_version(event: WatchEvent) -> Option<Seq<char>> {
    match event {
        WatchEvent::Added(o) => object_version(o),
        WatchEvent::Modified(o) => object_version(o),
        WatchEvent::Deleted(o) => object_version(o),
        WatchEvent::Bookmark(o) => object_version(o),
        WatchEvent::ErrorStatus => None,
        WatchEvent::ErrorOther => None,
    }
}

/// The view of an optional owned string.
pub open spec fn opt_string_view(o: Option<String>) -> Option<Seq<char>> {
    match o {
        Some(s) => Some(s@),
        None => None,
    }
}

/// The view of an optional borrowed string.
pub open spec fn opt_str_view(o: Option<&str>) -> Option<Seq<char>> {
    match o {
        Some(s) => Some(s@),
        None => None,
    }
}

/// Resource version state in the context of a chain of watch requests.
#[derive(Debug, Clone)]
pub struct State(Option<String>);

impl View for State {
    type V = Option<Seq<char>>;

    closed spec fn view(&self) -> Option<Seq<char>> {
        opt_string_view(self.0)
    }
}

impl State {
    /// An empty cursor.
    pub fn new() -> (r: Self)
        ensures
            r@ is None,
    {
        State(None)
    }

    /// Commits the candidate as the current cursor; returns the previous one.
    pub fn update(&mut self, candidate: Candidate) -> (prev: Option<String>)
        ensures
            final(self)@ == Some(candidate@),
            opt_string_view(prev) == old(self)@,
    {
        let prev = self.0.take();
        self.0 = Some(candidate.0);
        prev
    }

    /// Clears the cursor, on a desync; returns the previous one.
    pub fn reset(&mut self) -> (prev: Option<String>)
        ensures
            final(self)@ is None,
            opt_string_view(prev) == old(self)@,
    {
        self.0.take()
    }

    /// The current cursor, if any.
    pub fn get(&self) -> (r: Option<&str>)
        ensures
            opt_str_view(r) == self@,
    {
        match &self.0 {
            Some(v) => Some(v.as_str()),
            None => None,
        }
    }
}

/// A resource version candidate: a version seen on an event, not yet committed.
#[derive(Debug)]
pub struct Candidate(String);

impl View for Candidate {
    type V = Seq<char>;

    closed spec fn view(&self) -> Seq<char> {
        self.0@
    }
}

impl Candidate {
    /// The candidate of an event: that of its object, none for an error frame.
    pub fn from_watch_event(event: &WatchEvent) -> (r: Option<Candidate>)
        ensures
            r matches Some(c) ==> event_version(*event) == Some(c@),
            r is None ==> event_version(*event) is None,
    {
        match event {
            WatchEvent::Added(object)
            | WatchEvent::Modified(object)
            | WatchEvent::Deleted(object)
            | WatchEvent::Bookmark(object) => Self::from_object(object),
            WatchEvent::ErrorStatus | WatchEvent::ErrorOther => None,
        }
    }

    /// The candidate of an object: its resource version, where it has metadata
    /// and a non-empty version there.
    pub fn from_object(object: &Object) -> (r: Option<Candidate>)
        ensures
            r matches Some(c) ==> object_version(*object) == Some(c@),
            r is None ==> object_version(*object) is None,
    {
        match &object.metadata {
            Some(meta) => match &meta.resource_version {
                Some(v) => {
                    if v.as_str().is_empty() {
                        None
                    } else {
                        Some(Candidate(v.clone()))
                    }
                },
                None => None,
            },
            None => None,
        }
    }
}

} // verus!
