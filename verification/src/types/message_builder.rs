//! Building a message: a constructor with empty defaults and methods that
//! each set or extend one part of it.

use crate::types::email::{Attachment, Body, EmailAddress, Message};
use crate::types::string_map::StringMap;
use vstd::prelude::*;

verus! {

impl Message {
    /// A message from `from` with the given subject and body, no recipients,
    /// no reply-to address, no attachments, no custom headers or variables
    /// and no category.
    #[must_use]
    pub fn new(from: EmailAddress, subject: String, body: Body) -> (r: Message)
        ensures
            r.from == from,
            r.to@ == Seq::<EmailAddress>::empty(),
            r.cc@ == Seq::<EmailAddress>::empty(),
            r.bcc@ == Seq::<EmailAddress>::empty(),
            r.reply_to is None,
            r.attachments@ == Seq::<Attachment>::empty(),
            r.headers@ == Map::<Seq<char>, Seq<char>>::empty(),
            r.custom_variables@ == Map::<Seq<char>, Seq<char>>::empty(),
            r.subject == subject,
            r.body == body,
            r.category is None,
    {
        Message {
            from,
            to: Vec::new(),
            cc: Vec::new(),
            bcc: Vec::new(),
            reply_to: None,
            attachments: Vec::new(),
            headers: StringMap::new(),
            custom_variables: StringMap::new(),
            subject,
            body,
            category: None,
        }
    }

    /// Adds a CC recipient.
    pub fn to(self, addr: EmailAddress) -> (r: Message)
        ensures
            r.cc@ == self.cc@.push(addr),
            r == (Message { cc: r.cc, ..self }),
    {
        let mut m = self;
        m.cc.push(addr);
        m
    }

    /// Adds a CC recipient.
    pub fn cc(self, addr: EmailAddress) -> (r: Message)
        ensures
            r.cc@ == self.cc@.push(addr),
            r == (Message { cc: r.cc, ..self }),
    {
        let mut m = self;
        m.cc.push(addr);
        m
    }

    /// Adds a BCC recipient.
    pub fn bcc(self, addr: EmailAddress) -> (r: Message)
        ensures
            r.bcc@ == self.bcc@.push(addr),
            r == (Message { bcc: r.bcc, ..self }),
    {
        let mut m = self;
        m.bcc.push(addr);
        m
    }

    /// Sets the Reply-To address.
    pub fn reply_to(self, addr: EmailAddress) -> (r: Message)
        ensures
            r == (Message { reply_to: Some(addr), ..self }),
    {
        let mut m = self;
        m.reply_to = Some(addr);
        m
    }

    /// Adds a custom header, or replaces the value of the header with that name.
    pub fn header(self, key: &str, value: &str) -> (r: Message)
        ensures
            r.headers@ == self.headers@.insert(key@, value@),
            r == (Message { headers: r.headers, ..self }),
    {
        let mut m = self;
        m.headers.insert(key.to_owned(), value.to_owned());
        m
    }

    /// Adds a custom variable, or replaces the value of the variable with that name.
    pub fn custom_var(self, key: &str, value: &str) -> (r: Message)
        ensures
            r.custom_variables@ == self.custom_variables@.insert(key@, value@),
            r == (Message { custom_variables: r.custom_variables, ..self }),
    {
        let mut m = self;
        m.custom_variables.insert(key.to_owned(), value.to_owned());
        m
    }

    /// Adds an attachment.
    pub fn attachment(self, a: Attachment) -> (r: Message)
        ensures
            r.attachments@ == self.attachments@.push(a),
            r == (Message { attachments: r.attachments, ..self }),
    {
        let mut m = self;
        m.attachments.push(a);
        m
    }

    /// Sets the category.
    pub fn category(self, c: &str) -> (r: Message)
        ensures
            r.category is Some && r.category->0@ == c@,
            r == (Message { category: r.category, ..self }),
    {
        let mut m = self;
        m.category = Some(c.to_owned());
        m
    }

    /// Replaces the subject.
    pub fn subject(self, s: &str) -> (r: Message)
        ensures
            r.subject@ == s@,
            r == (Message { subject: r.subject, ..self }),
    {
        let mut m = self;
        m.subject = s.to_owned();
        m
    }
}

} // verus!
