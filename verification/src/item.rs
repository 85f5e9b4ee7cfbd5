//! The record data model: a retrieved item is either a tombstone for a
//! deleted record or a live record with a kind-specific payload.
//!
//! The remote store serves both shapes from the same endpoint without a
//! top-level tag, so a raw response is resolved structurally: a response
//! carrying the tombstone's required fields is a tombstone, otherwise it must
//! carry the live record's required fields, else it is a schema mismatch.

use vstd::prelude::*;

verus! {

/// The kind-specific payload of a live record, keyed on the wire by the
/// `type` discriminator field.
#[derive(Debug)]
pub enum ItemVariant {
    Story {
        descendants: i32,
        kids: Vec<u32>,
        score: i32,
        title: String,
        url: Option<String>,
        text: Option<String>,
    },
    Comment {
        kids: Vec<u32>,
        parent: u32,
        text: String,
    },
    Job {
        score: i32,
        text: Option<String>,
        title: String,
        url: Option<String>,
    },
    Poll {
        descendants: i32,
        kids: Vec<u32>,
        parts: Vec<u32>,
        score: i32,
        title: String,
    },
    PollOpt {
        poll: u32,
        score: i32,
        text: String,
    },
}

/// One record of the remote store. Every record carries a `time` field,
/// given as whole seconds since the Unix epoch; the two shapes share no
/// other required field.
#[derive(Debug)]
pub enum Item {
    DeletedItem { id: u32, deleted: bool, time: i64, type_: String },
    LiveItem { by: String, dead: bool, id: u32, time: i64, variant: ItemVariant },
}

impl Item {
    /// The record's creation time, in seconds since the Unix epoch.
    pub open spec fn spec_time(&self) -> i64 {
        match *self {
            Item::DeletedItem { time, .. } => time,
            Item::LiveItem { time, .. } => time,
        }
    }

    /// The record's creation time, in seconds since the Unix epoch.
    pub fn time(&self) -> (t: i64)
        ensures
            t == self.spec_time(),
    {
        match self {
            Item::DeletedItem { time, .. } => *time,
            Item::LiveItem { time, .. } => *time,
        }
    }
}

/// Why one lookup produced no record: the transport failed or returned a
/// non-success status, or the body matched no known record shape.
#[derive(Debug, PartialEq, Eq, Structural, Clone, Copy)]
pub enum FetchError {
    Transient,
    SchemaMismatch,
}

/// What one lookup produced: exactly one outcome exists per submitted ID.
#[derive(Debug)]
pub enum FetchOutcome {
    Success(Item),
    Failure(FetchError),
}

/// The fields a raw store response may carry, already decoded to plain
/// values. Fields that are required in some record shape are optional here;
/// `kids`, `parts` and `dead` are defaulted in every shape that uses them,
/// so an absent field and its default are not distinguished.
#[derive(Debug)]
pub struct RawItem {
    pub id: Option<u32>,
    pub deleted: Option<bool>,
    pub time: Option<i64>,
    pub type_: Option<String>,
    pub by: Option<String>,
    pub dead: bool,
    pub descendants: Option<i32>,
    pub kids: Vec<u32>,
    pub score: Option<i32>,
    pub title: Option<String>,
    pub url: Option<String>,
    pub text: Option<String>,
    pub parent: Option<u32>,
    pub parts: Vec<u32>,
    pub poll: Option<u32>,
}

/// A raw response is a tombstone when the tombstone's required fields are
/// all present; this shape is tried first.
pub open spec fn tombstone_shape(raw: RawItem) -> bool {
    raw.id is Some && raw.deleted is Some && raw.time is Some && raw.type_ is Some
}

/// The payload that a raw response's discriminator and fields resolve to,
/// or `None` when the discriminator is unknown or a required field of the
/// selected kind is missing.
pub open spec fn spec_variant_of(raw: RawItem) -> Option<ItemVariant> {
    if raw.type_ is None {
        None
    } else {
        let t = raw.type_->0@;
        if t == "story"@ {
            if raw.score is Some && raw.title is Some {
                Some(ItemVariant::Story {
                    descendants: if raw.descendants is Some { raw.descendants->0 } else { 0i32 },
                    kids: raw.kids,
                    score: raw.score->0,
                    title: raw.title->0,
                    url: raw.url,
                    text: raw.text,
                })
            } else {
                None
            }
        } else if t == "comment"@ {
            if raw.parent is Some && raw.text is Some {
                Some(ItemVariant::Comment { kids: raw.kids, parent: raw.parent->0, text: raw.text->0 })
            } else {
                None
            }
        } else if t == "job"@ {
            if raw.score is Some && raw.title is Some {
                Some(ItemVariant::Job {
                    score: raw.score->0,
                    text: raw.text,
                    title: raw.title->0,
                    url: raw.url,
                })
            } else {
                None
            }
        } else if t == "poll"@ {
            if raw.descendants is Some && raw.score is Some && raw.title is Some {
                Some(ItemVariant::Poll {
                    descendants: raw.descendants->0,
                    kids: raw.kids,
                    parts: raw.parts,
                    score: raw.score->0,
                    title: raw.title->0,
                })
            } else {
                None
            }
        } else if t == "pollopt"@ {
            if raw.poll is Some && raw.score is Some && raw.text is Some {
                Some(ItemVariant::PollOpt {
                    poll: raw.poll->0,
                    score: raw.score->0,
                    text: raw.text->0,
                })
            } else {
                None
            }
        } else {
            None
        }
    }
}

/// The record that a raw response resolves to: the tombstone shape wins when
/// complete, else a live record with a resolvable payload, else a schema
/// mismatch.
pub open spec fn spec_classify(raw: RawItem) -> Result<Item, FetchError> {
    if tombstone_shape(raw) {
        Ok(Item::DeletedItem {
            id: raw.id->0,
            deleted: raw.deleted->0,
            time: raw.time->0,
            type_: raw.type_->0,
        })
    } else if raw.by is Some && raw.id is Some && raw.time is Some && spec_variant_of(raw) is Some {
        Ok(Item::LiveItem {
            by: raw.by->0,
            dead: raw.dead,
            id: raw.id->0,
            time: raw.time->0,
            variant: spec_variant_of(raw)->0,
        })
    } else {
        Err(FetchError::SchemaMismatch)
    }
}

/// Resolve the payload kind of a live record from the discriminator string
/// and the kind's required fields.
fn variant_of(raw: RawItem) -> (r: Result<ItemVariant, FetchError>)
    ensures
        r matches Ok(v) ==> spec_variant_of(raw) == Some(v),
        r is Err ==> spec_variant_of(raw) is None && r == Err::<ItemVariant, FetchError>(
            FetchError::SchemaMismatch,
        ),
{
    let RawItem {
        type_, descendants, kids, score, title, url, text, parent, parts, poll, ..
    } = raw;
    let t = match type_ {
        Some(t) => t,
        None => { return Err(FetchError::SchemaMismatch); },
    };
    if t == "story".to_owned() {
        match (score, title) {
            (Some(score), Some(title)) => Ok(ItemVariant::Story {
                descendants: match descendants { Some(d) => d, None => 0 },
                kids,
                score,
                title,
                url,
                text,
            }),
            _ => Err(FetchError::SchemaMismatch),
        }
    } else if t == "comment".to_owned() {
        match (parent, text) {
            (Some(parent), Some(text)) => Ok(ItemVariant::Comment { kids, parent, text }),
            _ => Err(FetchError::SchemaMismatch),
        }
    } else if t == "job".to_owned() {
        match (score, title) {
            (Some(score), Some(title)) => Ok(ItemVariant::Job { score, text, title, url }),
            _ => Err(FetchError::SchemaMismatch),
        }
    } else if t == "poll".to_owned() {
        match (descendants, score, title) {
            (Some(descendants), Some(score), Some(title)) => Ok(ItemVariant::Poll {
                descendants,
                kids,
                parts,
                score,
                title,
            }),
            _ => Err(FetchError::SchemaMismatch),
        }
    } else if t == "pollopt".to_owned() {
        match (poll, score, text) {
            (Some(poll), Some(score), Some(text)) => Ok(ItemVariant::PollOpt { poll, score, text }),
            _ => Err(FetchError::SchemaMismatch),
        }
    } else {
        Err(FetchError::SchemaMismatch)
    }
}

/// Resolve a raw store response to a record, or report a schema mismatch.
pub fn classify(raw: RawItem) -> (r: Result<Item, FetchError>)
    ensures
        r == spec_classify(raw),
{
    if raw.id.is_some() && raw.deleted.is_some() && raw.time.is_some() && raw.type_.is_some() {
        let RawItem { id, deleted, time, type_, .. } = raw;
        Ok(Item::DeletedItem {
            id: id.unwrap(),
            deleted: deleted.unwrap(),
            time: time.unwrap(),
            type_: type_.unwrap(),
        })
    } else {
        let by = match raw.by {
            Some(ref b) => b.clone(),
            None => { return Err(FetchError::SchemaMismatch); },
        };
        let id = match raw.id {
            Some(id) => id,
            None => { return Err(FetchError::SchemaMismatch); },
        };
        let time = match raw.time {
            Some(time) => time,
            None => { return Err(FetchError::SchemaMismatch); },
        };
        let dead = raw.dead;
        let variant = match variant_of(raw) {
            Ok(v) => v,
            Err(e) => { return Err(e); },
        };
        Ok(Item::LiveItem { by, dead, id, time, variant })
    }
}

} // verus!
