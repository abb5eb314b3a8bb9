//! Feedback from a user, and the context and event that carry it.
use vstd::prelude::*;

use crate::context::{Context, ContextData};
use crate::event::{Event, EventId};
use crate::external::Timestamp;
use crate::json::lemma_key_index;
use crate::level::Level;
use crate::map::{context_map_entries, context_map_insert, new_value_map, value_map_entries};

verus! {

/// Represents feedback from a user.
#[derive(Debug, Clone, PartialEq)]
pub struct Feedback {
    /// The user's contact email
    pub contact_email: Option<String>,
    /// The user's name
    pub name: Option<String>,
    /// The feedback from the user
    pub message: String,
}

impl Default for Feedback {
    fn default() -> (r: Feedback)
        ensures
            r.contact_email is None,
            r.name is None,
            r.message@ == Seq::<char>::empty(),
    {
        Feedback { contact_email: None, name: None, message: String::new() }
    }
}

impl Feedback {
    /// The context that carries this feedback: a feedback context holding
    /// a copy of it, with no extra keys.
    pub fn to_context(&self) -> (c: Context)
        ensures
            c.data == ContextData::Feedback(Box::new(*self)),
            value_map_entries(c.extra).len() == 0,
    {
        let copy = Feedback {
            contact_email: match &self.contact_email {
                Some(e) => Some(e.clone()),
                None => None,
            },
            name: match &self.name {
                Some(n) => Some(n.clone()),
                None => None,
            },
            message: self.message.clone(),
        };
        Context { data: ContextData::Feedback(Box::new(copy)), extra: new_value_map() }
    }

    /// A new event at level info with the given id and timestamp (the
    /// protocol takes a random id and the current time), whose only context
    /// is this feedback's, under the key `feedback`.
    pub fn to_new_event(&self, id: EventId, timestamp: Timestamp) -> (e: Event)
        ensures
            e.id == Some(id),
            e.level == Level::Info,
            e.timestamp == Some(timestamp),
            context_map_entries(e.contexts).len() == 1,
            context_map_entries(e.contexts)[0].0@ == "feedback"@,
            context_map_entries(e.contexts)[0].1.data == ContextData::Feedback(Box::new(*self)),
            value_map_entries(context_map_entries(e.contexts)[0].1.extra).len() == 0,
            e.has_blank_payload(),
    {
        let mut event = Event::default();
        let ghost blank = event;
        let key = "feedback".to_owned();
        let ctx = self.to_context();
        let ghost ctx_g = ctx;
        let ghost key_g = key;
        context_map_insert(&mut event.contexts, key, ctx);
        proof {
            reveal_strlit("feedback");
            lemma_key_index(context_map_entries(blank.contexts), key_g@);
            assert(context_map_entries(event.contexts) =~= seq![(key_g, ctx_g)]);
        }
        event.id = Some(id);
        event.level = Level::Info;
        event.timestamp = Some(timestamp);
        event
    }
}

} // verus!
