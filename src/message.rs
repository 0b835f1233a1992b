use vstd::prelude::*;

verus! {

/// How the payload of a message is to be read.
#[derive(Clone, Copy, Debug, PartialEq, Eq, Structural)]
pub enum MessageType {
    Text,
    Image,
    Audio,
}

/// Who produced a message.
#[derive(Clone, Copy, Debug, PartialEq, Eq, Structural)]
pub enum Role {
    User,
    Assistant,
}

/// One entry of a conversation log.
#[derive(Debug)]
pub struct Message {
    pub msgtype: MessageType,
    /// Position of the message in its log, assigned by the log engine.
    pub id: usize,
    pub role: Role,
    pub content: String,
    /// Present for transcribed audio messages.
    pub transcription: Option<String>,
    /// Image references, in order.
    pub images: Vec<String>,
}

/// The mathematical value of a message: every text as a sequence of characters.
pub struct MessageView {
    pub msgtype: MessageType,
    pub id: nat,
    pub role: Role,
    pub content: Seq<char>,
    pub transcription: Option<Seq<char>>,
    pub images: Seq<Seq<char>>,
}

pub open spec fn strings_view(v: Seq<String>) -> Seq<Seq<char>> {
    v.map_values(|s: String| s@)
}

pub open spec fn opt_string_view(o: Option<String>) -> Option<Seq<char>> {
    match o {
        Some(s) => Some(s@),
        None => None,
    }
}

impl View for Message {
    type V = MessageView;

    open spec fn view(&self) -> MessageView {
        MessageView {
            msgtype: self.msgtype,
            id: self.id as nat,
            role: self.role,
            content: self.content@,
            transcription: opt_string_view(self.transcription),
            images: strings_view(self.images@),
        }
    }
}

/// The view of every message of a log, in order.
pub open spec fn log_view(log: Seq<Message>) -> Seq<MessageView> {
    log.map_values(|m: Message| m@)
}

/// Copies a list of strings, keeping every character.
pub fn copy_strings(v: &Vec<String>) -> (r: Vec<String>)
    ensures
        strings_view(r@) == strings_view(v@),
{
    let mut r: Vec<String> = Vec::new();
    let mut i: usize = 0;
    while i < v.len()
        invariant
            i <= v@.len(),
            strings_view(r@) == strings_view(v@.take(i as int)),
        decreases v@.len() - i,
    {
        let ghost prev = r@;
        r.push(v[i].clone());
        proof {
            assert(prev.len() == i) by {
                assert(strings_view(prev).len() == strings_view(v@.take(i as int)).len());
            }
            assert forall|j: int| 0 <= j < i implies r@[j]@ == v@[j]@ by {
                assert(strings_view(prev)[j] == strings_view(v@.take(i as int))[j]);
            }
            assert(strings_view(r@) =~= strings_view(v@.take(i as int + 1)));
        }
        i = i + 1;
    }
    proof {
        assert(v@.take(v@.len() as int) == v@);
    }
    r
}

/// Copies an optional string.
pub fn copy_opt_string(o: &Option<String>) -> (r: Option<String>)
    ensures
        opt_string_view(r) == opt_string_view(*o),
{
    match o {
        Some(s) => Some(s.clone()),
        None => None,
    }
}

impl Message {
    /// A copy with the same view.
    pub fn copy(&self) -> (r: Message)
        ensures
            r@ == self@,
    {
        Message {
            msgtype: self.msgtype,
            id: self.id,
            role: self.role,
            content: self.content.clone(),
            transcription: copy_opt_string(&self.transcription),
            images: copy_strings(&self.images),
        }
    }
}

/// Copies a log message by message.
pub fn copy_log(log: &Vec<Message>) -> (r: Vec<Message>)
    ensures
        log_view(r@) == log_view(log@),
{
    let mut r: Vec<Message> = Vec::new();
    let mut i: usize = 0;
    while i < log.len()
        invariant
            i <= log@.len(),
            log_view(r@) == log_view(log@.take(i as int)),
        decreases log@.len() - i,
    {
        let ghost prev = r@;
        r.push(log[i].copy());
        proof {
            assert(prev.len() == i) by {
                assert(log_view(prev).len() == log_view(log@.take(i as int)).len());
            }
            assert forall|j: int| 0 <= j < i implies r@[j]@ == log@[j]@ by {
                assert(log_view(prev)[j] == log_view(log@.take(i as int))[j]);
            }
            assert(log_view(r@) =~= log_view(log@.take(i as int + 1)));
        }
        i = i + 1;
    }
    proof {
        assert(log@.take(log@.len() as int) == log@);
    }
    r
}

} // verus!
