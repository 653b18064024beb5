use vstd::prelude::*;
use vstd::string::*;

verus! {

/// What a record resolves to.
#[derive(Debug, PartialEq, Eq)]
pub enum RecordData {
    /// Bytes at `path` on the content store, offered for download as `name`.
    File { path: String, name: String },
    /// A redirect to `target`.
    Url { target: String },
    /// Inline text.
    Paste { body: String },
}

/// The mathematical value of a [`RecordData`].
pub enum Payload {
    File { path: Seq<char>, name: Seq<char> },
    Url { target: Seq<char> },
    Paste { body: Seq<char> },
}

impl View for RecordData {
    type V = Payload;

    open spec fn view(&self) -> Payload {
        match self {
            RecordData::File { path, name } => Payload::File { path: path@, name: name@ },
            RecordData::Url { target } => Payload::Url { target: target@ },
            RecordData::Paste { body } => Payload::Paste { body: body@ },
        }
    }
}

impl Clone for RecordData {
    fn clone(&self) -> (r: Self)
        ensures
            r@ == self@,
    {
        match self {
            RecordData::File { path, name } => RecordData::File {
                path: path.clone(),
                name: name.clone(),
            },
            RecordData::Url { target } => RecordData::Url { target: target.clone() },
            RecordData::Paste { body } => RecordData::Paste { body: body.clone() },
        }
    }
}

/// The characters of a field that may be absent.
pub open spec fn text_of(field: Option<String>) -> Option<Seq<char>> {
    match field {
        Some(s) => Some(s@),
        None => None,
    }
}

/// The payload that the stored fields of a record stand for. The kind is
/// one of `file`, `url` and `paste`, written exactly so, and each kind needs
/// its own fields: a file its path and name, a URL its target, a paste its
/// body. Fields of another kind are passed over.
pub open spec fn payload_of_fields(
    kind: Seq<char>,
    path: Option<Seq<char>>,
    name: Option<Seq<char>>,
    target: Option<Seq<char>>,
    body: Option<Seq<char>>,
) -> Option<Payload> {
    if kind == "file"@ {
        if path is Some && name is Some {
            Some(Payload::File { path: path.unwrap(), name: name.unwrap() })
        } else {
            None
        }
    } else if kind == "url"@ {
        if target is Some {
            Some(Payload::Url { target: target.unwrap() })
        } else {
            None
        }
    } else if kind == "paste"@ {
        if body is Some {
            Some(Payload::Paste { body: body.unwrap() })
        } else {
            None
        }
    } else {
        None
    }
}

fn is_word(text: &str, word: &str) -> (r: bool)
    ensures
        r == (text@ == word@),
{
    String::from_str(text) == String::from_str(word)
}

impl RecordData {
    /// Builds a payload from the fields under which a record is stored, or
    /// `None` where the kind is unknown or one of its fields is missing.
    pub fn from_fields(
        kind: &str,
        path: Option<String>,
        name: Option<String>,
        target: Option<String>,
        body: Option<String>,
    ) -> (r: Option<RecordData>)
        ensures
            match r {
                Some(data) => payload_of_fields(
                    kind@,
                    text_of(path),
                    text_of(name),
                    text_of(target),
                    text_of(body),
                ) == Some(data@),
                None => payload_of_fields(
                    kind@,
                    text_of(path),
                    text_of(name),
                    text_of(target),
                    text_of(body),
                ) is None,
            },
    {
        if is_word(kind, "file") {
            match (path, name) {
                (Some(path), Some(name)) => Some(RecordData::File { path, name }),
                _ => None,
            }
        } else if is_word(kind, "url") {
            match target {
                Some(target) => Some(RecordData::Url { target }),
                None => None,
            }
        } else if is_word(kind, "paste") {
            match body {
                Some(body) => Some(RecordData::Paste { body }),
                None => None,
            }
        } else {
            None
        }
    }
}

/// A record as the backend holds it. It is made whole and read through
/// its methods; nothing changes it afterwards.
#[derive(Debug, PartialEq, Eq)]
pub struct Record {
    slug: String,
    data: RecordData,
    remaining_accesses: Option<u64>,
    expires_at: Option<u64>,
}

/// The mathematical value of a [`Record`].
pub struct RecordModel {
    /// The name under which the record is found; compared exactly.
    pub slug: Seq<char>,
    pub data: Payload,
    /// Accesses left; `None` means that the record is never used up.
    pub remaining_accesses: Option<u64>,
    /// The time from which the record is no longer served, if any.
    pub expires_at: Option<u64>,
}

impl RecordModel {
    /// The record's counter is present and used up.
    pub open spec fn exhausted(self) -> bool {
        self.remaining_accesses == Some(0u64)
    }

    /// The record's time has come at `now`.
    pub open spec fn expired(self, now: u64) -> bool {
        match self.expires_at {
            Some(t) => t <= now,
            None => false,
        }
    }

    /// The record may be served at `now`.
    pub open spec fn live(self, now: u64) -> bool {
        !self.exhausted() && !self.expired(now)
    }
}

impl View for Record {
    type V = RecordModel;

    closed spec fn view(&self) -> RecordModel {
        RecordModel {
            slug: self.slug@,
            data: self.data@,
            remaining_accesses: self.remaining_accesses,
            expires_at: self.expires_at,
        }
    }
}

impl Clone for Record {
    fn clone(&self) -> (r: Self)
        ensures
            r@ == self@,
    {
        Record {
            slug: self.slug.clone(),
            data: self.data.clone(),
            remaining_accesses: self.remaining_accesses,
            expires_at: self.expires_at,
        }
    }
}

impl Record {
    pub fn new(
        slug: String,
        data: RecordData,
        remaining_accesses: Option<u64>,
        expires_at: Option<u64>,
    ) -> (r: Record)
        ensures
            r@ == (RecordModel {
                slug: slug@,
                data: data@,
                remaining_accesses,
                expires_at,
            }),
    {
        Record { slug, data, remaining_accesses, expires_at }
    }

    pub fn slug(&self) -> (r: &str)
        ensures
            r@ == self@.slug,
    {
        self.slug.as_str()
    }

    pub fn data(&self) -> (r: &RecordData)
        ensures
            r@ == self@.data,
    {
        &self.data
    }

    pub fn remaining_accesses(&self) -> (r: Option<u64>)
        ensures
            r == self@.remaining_accesses,
    {
        self.remaining_accesses
    }

    pub fn expires_at(&self) -> (r: Option<u64>)
        ensures
            r == self@.expires_at,
    {
        self.expires_at
    }

    /// Whether the record is the one named `slug`.
    pub fn has_slug(&self, slug: &String) -> (r: bool)
        ensures
            r == (self@.slug == slug@),
    {
        self.slug == *slug
    }

    /// The same record with `left` accesses left.
    pub fn with_remaining_accesses(self, left: u64) -> (r: Record)
        ensures
            r@ == (RecordModel { remaining_accesses: Some(left), ..self@ }),
    {
        Record {
            slug: self.slug,
            data: self.data,
            remaining_accesses: Some(left),
            expires_at: self.expires_at,
        }
    }

    /// Whether the record has a counter that is used up.
    pub fn is_exhausted(&self) -> (r: bool)
        ensures
            r == self@.exhausted(),
    {
        match self.remaining_accesses {
            Some(left) => left == 0,
            None => false,
        }
    }

    /// Whether the record may be served at `now`: its counter, if it has
    /// one, is not used up, and its time, if it has one, has not come.
    pub fn is_live(&self, now: u64) -> (r: bool)
        ensures
            r == self@.live(now),
    {
        let late = match self.expires_at {
            Some(t) => t <= now,
            None => false,
        };
        !self.is_exhausted() && !late
    }
}

} // verus!
