use vstd::prelude::*;
use vstd::string::*;
use vstd::seq_lib::*;
use crate::engine::{
    answer_entry, apply_branch_and_append, branched_log, branched_title, cut_point,
    lemma_appends_at_end_serialize, user_entry,
};
use crate::title::{lemma_title_bounded, words_of, MAX_TITLE_CHARS};
use crate::message::{
    copy_log, log_view, opt_string_view, strings_view, Message, MessageType, MessageView,
};

verus! {

/// Title of a conversation that has no exchange yet.
pub open spec fn default_title() -> Seq<char> {
    "New Chat"@
}

/// A user's conversation, as stored.
#[derive(Debug)]
pub struct Conversation {
    pub id: u128,
    pub user_id: i64,
    pub title: String,
    pub log: Vec<Message>,
    /// Milliseconds since the Unix epoch.
    pub created_at: i64,
    /// Milliseconds since the Unix epoch.
    pub updated_at: i64,
}

pub struct ConversationView {
    pub id: u128,
    pub user_id: i64,
    pub title: Seq<char>,
    pub log: Seq<MessageView>,
    pub created_at: i64,
    pub updated_at: i64,
}

impl View for Conversation {
    type V = ConversationView;

    open spec fn view(&self) -> ConversationView {
        ConversationView {
            id: self.id,
            user_id: self.user_id,
            title: self.title@,
            log: log_view(self.log@),
            created_at: self.created_at,
            updated_at: self.updated_at,
        }
    }
}

impl Conversation {
    /// A copy with the same view.
    pub fn copy(&self) -> (r: Conversation)
        ensures
            r@ == self@,
    {
        Conversation {
            id: self.id,
            user_id: self.user_id,
            title: self.title.clone(),
            log: copy_log(&self.log),
            created_at: self.created_at,
            updated_at: self.updated_at,
        }
    }
}

/// Why a store operation failed.
#[derive(Clone, Copy, Debug, PartialEq, Eq, Structural)]
pub enum StoreError {
    /// No conversation has both the given owner and the given id.
    NotFound,
    /// The change cannot be written.
    Persistence,
}

/// The stored conversations, as one unit of work sees them. Every operation
/// takes the table by reference, so operations on it happen one after another.
pub struct ConversationTable {
    pub rows: Vec<Conversation>,
}

pub open spec fn rows_view(rows: Seq<Conversation>) -> Seq<ConversationView> {
    rows.map_values(|c: Conversation| c@)
}

/// Whether a row has the given owner and id.
pub open spec fn matches_keys(c: ConversationView, user_id: i64, id: u128) -> bool {
    c.user_id == user_id && c.id == id
}

/// The time written as a row's last change: `now`, but never before the row
/// was created.
pub open spec fn stamp(now: i64, created_at: i64) -> i64 {
    if now < created_at {
        created_at
    } else {
        now
    }
}

/// Whether `user_id` owns a row.
pub open spec fn owner_is(user_id: i64) -> spec_fn(ConversationView) -> bool {
    |c: ConversationView| c.user_id == user_id
}

/// The rows owned by `user_id`, in table order.
pub open spec fn owned_by(rows: Seq<ConversationView>, user_id: i64) -> Seq<ConversationView> {
    rows.filter(owner_is(user_id))
}

/// Most recently changed first.
pub open spec fn by_recency(s: Seq<ConversationView>) -> bool {
    forall|a: int, b: int| 0 <= a < b < s.len() ==> s[a].updated_at >= s[b].updated_at
}

/// The position of the row with the given owner and id, where there is one.
pub open spec fn row_index(rows: Seq<ConversationView>, user_id: i64, id: u128) -> int {
    choose|i: int| 0 <= i < rows.len() && matches_keys(rows[i], user_id, id)
}

impl ConversationTable {
    pub open spec fn view(&self) -> Seq<ConversationView> {
        rows_view(self.rows@)
    }

    /// Ids are unique, and no row was changed before it was created.
    pub open spec fn wf(&self) -> bool {
        &&& forall|i: int, j: int|
            0 <= i < j < self.rows@.len() ==> self.rows@[i].id != self.rows@[j].id
        &&& forall|i: int|
            0 <= i < self.rows@.len() ==> self.rows@[i].created_at <= self.rows@[i].updated_at
    }

    /// Whether a row has the given owner and id.
    pub open spec fn has(&self, user_id: i64, id: u128) -> bool {
        exists|i: int| 0 <= i < self@.len() && matches_keys(self@[i], user_id, id)
    }

    /// An empty table.
    pub fn new() -> (r: ConversationTable)
        ensures
            r.wf(),
            r@.len() == 0,
    {
        ConversationTable { rows: Vec::new() }
    }

    /// The position of the row with the given id, if any.
    pub fn position_of(&self, id: u128) -> (r: Option<usize>)
        ensures
            match r {
                Some(i) => i < self.rows@.len() && self.rows@[i as int].id == id,
                None => forall|i: int| 0 <= i < self.rows@.len() ==> self.rows@[i].id != id,
            },
    {
        let mut i: usize = 0;
        while i < self.rows.len()
            invariant
                i <= self.rows@.len(),
                forall|j: int| 0 <= j < i ==> self.rows@[j].id != id,
            decreases self.rows@.len() - i,
        {
            if self.rows[i].id == id {
                return Some(i);
            }
            i = i + 1;
        }
        None
    }
}

/// Relies on `uuid::Uuid::new_v4` and `Uuid::as_u128`: a random id. Nothing
/// is promised of its value.
#[verifier::external_body]
fn random_id() -> (r: u128) {
    uuid::Uuid::new_v4().as_u128()
}

/// Relies on `chrono::Utc::now` and `DateTime::timestamp_millis`: the time
/// now, in milliseconds since the Unix epoch. Nothing is promised of it.
#[verifier::external_body]
fn now_millis() -> (r: i64) {
    chrono::Utc::now().timestamp_millis()
}

/// The view of a conversation that was just created.
pub open spec fn fresh_row(user_id: i64, id: u128, now: i64) -> ConversationView {
    ConversationView {
        id,
        user_id,
        title: default_title(),
        log: Seq::empty(),
        created_at: now,
        updated_at: now,
    }
}

/// The view of a conversation after an exchange was appended at `branch_point`.
pub open spec fn appended_row(
    c: ConversationView,
    branch_point: nat,
    msgtype: MessageType,
    content: Seq<char>,
    transcription: Option<Seq<char>>,
    images: Seq<Seq<char>>,
    answer: Seq<char>,
    now: i64,
) -> ConversationView {
    ConversationView {
        id: c.id,
        user_id: c.user_id,
        title: branched_title(c.title, branch_point, content),
        log: branched_log(c.log, branch_point, msgtype, content, transcription, images, answer),
        created_at: c.created_at,
        updated_at: stamp(now, c.created_at),
    }
}

/// The view of a conversation after it was renamed.
pub open spec fn renamed_row(c: ConversationView, title: Seq<char>, now: i64) -> ConversationView {
    ConversationView {
        id: c.id,
        user_id: c.user_id,
        title,
        log: c.log,
        created_at: c.created_at,
        updated_at: stamp(now, c.created_at),
    }
}

/// Adds an empty conversation with the given id, owned by `user_id`, created
/// at `now`. Fails with `Persistence`, and changes nothing, where the id is
/// already taken.
pub fn insert_conversation(tx: &mut ConversationTable, user_id: i64, id: u128, now: i64) -> (r:
    Result<u128, StoreError>)
    requires
        old(tx).wf(),
    ensures
        final(tx).wf(),
        (exists|i: int| 0 <= i < old(tx)@.len() && old(tx)@[i].id == id) ==> r == Err::<
            u128,
            StoreError,
        >(StoreError::Persistence) && final(tx)@ == old(tx)@,
        (forall|i: int| 0 <= i < old(tx)@.len() ==> old(tx)@[i].id != id) ==> r == Ok::<
            u128,
            StoreError,
        >(id) && final(tx)@ == old(tx)@.push(fresh_row(user_id, id, now)),
{
    match tx.position_of(id) {
        Some(k) => {
            proof {
                assert(old(tx)@[k as int].id == id);
            }
            Err(StoreError::Persistence)
        },
        None => {
            proof {
                reveal_strlit("New Chat");
            }
            let row = Conversation {
                id,
                user_id,
                title: String::from_str("New Chat"),
                log: Vec::new(),
                created_at: now,
                updated_at: now,
            };
            tx.rows.push(row);
            proof {
                assert(log_view(Seq::<Message>::empty()) =~= Seq::<MessageView>::empty());
                assert(tx@ =~= old(tx)@.push(fresh_row(user_id, id, now)));
            }
            Ok(id)
        },
    }
}

/// Creates an empty conversation owned by `user_id` under a fresh random id.
pub fn new_conversation(tx: &mut ConversationTable, user_id: i64) -> (r: Result<u128, StoreError>)
    requires
        old(tx).wf(),
    ensures
        final(tx).wf(),
        r is Ok ==> forall|i: int| 0 <= i < old(tx)@.len() ==> old(tx)@[i].id != r->Ok_0,
        r is Ok ==> exists|now: i64| final(tx)@ == old(tx)@.push(fresh_row(user_id, r->Ok_0, now)),
        r is Err ==> r->Err_0 == StoreError::Persistence && final(tx)@ == old(tx)@,
        r is Err ==> old(tx)@.len() > 0,
{
    let id = random_id();
    let now = now_millis();
    let r = insert_conversation(tx, user_id, id, now);
    proof {
        if r.is_ok() {
            assert forall|i: int| 0 <= i < old(tx)@.len() implies old(tx)@[i].id != id by {
                if old(tx)@[i].id == id {
                    assert(exists|j: int| 0 <= j < old(tx)@.len() && old(tx)@[j].id == id);
                }
            }
            assert(tx@ == old(tx)@.push(fresh_row(user_id, r->Ok_0, now)));
        }
    }
    r
}

/// The conversation with the given id, where `user_id` owns it. A missing id
/// and one that another user owns give the same `None`.
pub fn find_by_user_id_and_conversation_id(
    tx: &ConversationTable,
    user_id: i64,
    conversation_id: u128,
) -> (r: Option<Conversation>)
    requires
        tx.wf(),
    ensures
        r.is_none() <==> !tx.has(user_id, conversation_id),
        match r {
            Some(c) => forall|i: int|
                0 <= i < tx@.len() && matches_keys(tx@[i], user_id, conversation_id) ==> c@
                    == tx@[i],
            None => true,
        },
{
    match tx.position_of(conversation_id) {
        Some(i) => {
            proof {
                assert(tx@[i as int] == tx.rows@[i as int]@);
                assert forall|j: int|
                    0 <= j < tx@.len() && matches_keys(tx@[j], user_id, conversation_id) implies j
                    == i by {
                    assert(tx@[j] == tx.rows@[j]@);
                }
            }
            if tx.rows[i].user_id == user_id {
                Some(tx.rows[i].copy())
            } else {
                None
            }
        },
        None => {
            proof {
                assert forall|j: int| 0 <= j < tx@.len() implies !matches_keys(
                    tx@[j],
                    user_id,
                    conversation_id,
                ) by {
                    assert(tx@[j] == tx.rows@[j]@);
                }
            }
            None
        },
    }
}

/// Inserting into a sequence adds the element to its multiset.
proof fn lemma_insert_multiset(s: Seq<ConversationView>, p: int, x: ConversationView)
    requires
        0 <= p <= s.len(),
    ensures
        s.insert(p, x).to_multiset() == s.to_multiset().insert(x),
{
    let a = s.take(p);
    let b = s.skip(p);
    assert(s =~= a + b);
    assert(s.insert(p, x) =~= a.push(x) + b);
    lemma_multiset_commutative(a.push(x), b);
    lemma_multiset_commutative(a, b);
    a.to_multiset_ensures();
}

/// Every conversation that `user_id` owns, most recently changed first. Rows
/// changed at the same time may come in either order.
pub fn find_by_user_id(tx: &ConversationTable, user_id: i64) -> (r: Vec<Conversation>)
    ensures
        rows_view(r@).to_multiset() == owned_by(tx@, user_id).to_multiset(),
        by_recency(rows_view(r@)),
{
    let mut out: Vec<Conversation> = Vec::new();
    let mut i: usize = 0;
    proof {
        reveal(Seq::filter);
        assert(rows_view(out@) =~= Seq::<ConversationView>::empty());
        assert(tx@.take(0) =~= Seq::<ConversationView>::empty());
    }
    while i < tx.rows.len()
        invariant
            i <= tx.rows@.len(),
            rows_view(out@).to_multiset() == owned_by(tx@.take(i as int), user_id).to_multiset(),
            by_recency(rows_view(out@)),
        decreases tx.rows@.len() - i,
    {
        let ghost seen = tx@.take(i as int);
        proof {
            assert(tx@.take(i as int + 1) =~= seen.push(tx@[i as int]));
            seen.lemma_filter_push(tx@[i as int], owner_is(user_id));
            owned_by(seen, user_id).to_multiset_ensures();
        }
        if tx.rows[i].user_id == user_id {
            let at = tx.rows[i].updated_at;
            let mut p: usize = 0;
            while p < out.len() && out[p].updated_at >= at
                invariant
                    p <= out@.len(),
                    forall|j: int| 0 <= j < p ==> out@[j].updated_at >= at,
                decreases out@.len() - p,
            {
                p = p + 1;
            }
            let ghost prev = rows_view(out@);
            let row = tx.rows[i].copy();
            out.insert(p, row);
            proof {
                assert(rows_view(out@) =~= prev.insert(p as int, tx@[i as int]));
                lemma_insert_multiset(prev, p as int, tx@[i as int]);
                assert forall|a: int, b: int|
                    0 <= a < b < rows_view(out@).len() implies rows_view(out@)[a].updated_at
                    >= rows_view(out@)[b].updated_at by {
                    if p < prev.len() {
                        assert(prev[p as int].updated_at < at);
                    }
                }
            }
        }
        i = i + 1;
    }
    proof {
        assert(tx@.take(tx@.len() as int) =~= tx@);
    }
    out
}

/// Appends an exchange to the conversation with the given owner and id, as the
/// log engine does, and stamps the change with `now`. Fails with `NotFound`
/// where no such conversation exists, and with `Persistence` where the log
/// would outgrow what a log can index; either way nothing changes.
pub fn add_message_at(
    tx: &mut ConversationTable,
    user_id: i64,
    conversation_id: u128,
    user_message_type: MessageType,
    user_message: String,
    transcription: Option<String>,
    images: Vec<String>,
    answer: String,
    message_id: usize,
    now: i64,
) -> (r: Result<Conversation, StoreError>)
    requires
        old(tx).wf(),
    ensures
        final(tx).wf(),
        r == Err::<Conversation, StoreError>(StoreError::NotFound) <==> !old(tx).has(
            user_id,
            conversation_id,
        ),
        r == Err::<Conversation, StoreError>(StoreError::Persistence) <==> exists|i: int|
            0 <= i < old(tx)@.len() && matches_keys(old(tx)@[i], user_id, conversation_id)
                && cut_point(old(tx)@[i].log.len(), message_id as nat) + 2 > usize::MAX,
        r.is_err() ==> final(tx)@ == old(tx)@,
        match r {
            Ok(c) => {
                let i = row_index(old(tx)@, user_id, conversation_id);
                &&& old(tx).has(user_id, conversation_id)
                &&& c@ == appended_row(
                    old(tx)@[i],
                    message_id as nat,
                    user_message_type,
                    user_message@,
                    opt_string_view(transcription),
                    strings_view(images@),
                    answer@,
                    now,
                )
                &&& final(tx)@ == old(tx)@.update(i, c@)
            },
            Err(_) => true,
        },
{
    let i = match tx.position_of(conversation_id) {
        Some(i) => i,
        None => {
            return Err(StoreError::NotFound);
        },
    };
    if tx.rows[i].user_id != user_id {
        return Err(StoreError::NotFound);
    }
    let len = tx.rows[i].log.len();
    let cut: usize = if message_id < len {
        message_id
    } else {
        len
    };
    proof {
        assert(old(tx)@[i as int] == tx.rows@[i as int]@);
        assert(log_view(tx.rows@[i as int].log@).len() == len);
        assert forall|j: int|
            0 <= j < old(tx)@.len() && matches_keys(old(tx)@[j], user_id, conversation_id)
                implies j == i by {
            assert(old(tx)@[j] == tx.rows@[j]@);
        }
    }
    if cut > usize::MAX - 2 {
        return Err(StoreError::Persistence);
    }
    let ghost before = tx.rows@[i as int]@;
    let mut row = tx.rows.remove(i);
    apply_branch_and_append(
        &mut row.log,
        &mut row.title,
        message_id,
        user_message_type,
        user_message,
        transcription,
        images,
        answer,
    );
    row.updated_at = if now < row.created_at {
        row.created_at
    } else {
        now
    };
    let snapshot = row.copy();
    tx.rows.insert(i, row);
    proof {
        assert(tx.rows@ =~= old(tx).rows@.update(i as int, tx.rows@[i as int]));
        assert(tx@ =~= old(tx)@.update(i as int, snapshot@));
        assert(snapshot@ == appended_row(
            before,
            message_id as nat,
            user_message_type,
            user_message@,
            opt_string_view(transcription),
            strings_view(images@),
            answer@,
            now,
        ));
        assert(matches_keys(old(tx)@[i as int], user_id, conversation_id));
        assert(row_index(old(tx)@, user_id, conversation_id) == i);
    }
    Ok(snapshot)
}

/// Appends an exchange as `add_message_at` does, stamped with the time now.
pub fn add_message(
    tx: &mut ConversationTable,
    user_id: i64,
    conversation_id: u128,
    user_message_type: MessageType,
    user_message: String,
    transcription: Option<String>,
    images: Vec<String>,
    answer: String,
    message_id: usize,
) -> (r: Result<Conversation, StoreError>)
    requires
        old(tx).wf(),
    ensures
        final(tx).wf(),
        r == Err::<Conversation, StoreError>(StoreError::NotFound) <==> !old(tx).has(
            user_id,
            conversation_id,
        ),
        r == Err::<Conversation, StoreError>(StoreError::Persistence) <==> exists|i: int|
            0 <= i < old(tx)@.len() && matches_keys(old(tx)@[i], user_id, conversation_id)
                && cut_point(old(tx)@[i].log.len(), message_id as nat) + 2 > usize::MAX,
        r.is_err() ==> final(tx)@ == old(tx)@,
        match r {
            Ok(c) => {
                let i = row_index(old(tx)@, user_id, conversation_id);
                &&& old(tx).has(user_id, conversation_id)
                &&& exists|now: i64|
                    c@ == appended_row(
                    old(tx)@[i],
                    message_id as nat,
                    user_message_type,
                    user_message@,
                    opt_string_view(transcription),
                    strings_view(images@),
                    answer@,
                    now,
                )
                &&& final(tx)@ == old(tx)@.update(i, c@)
            },
            Err(_) => true,
        },
{
    let now = now_millis();
    add_message_at(
        tx,
        user_id,
        conversation_id,
        user_message_type,
        user_message,
        transcription,
        images,
        answer,
        message_id,
        now,
    )
}

/// Sets the title of the conversation with the given owner and id, exactly as
/// given, and stamps the change with `now`. Fails with `NotFound`, changing
/// nothing, where no such conversation exists.
pub fn edit_title_at(
    tx: &mut ConversationTable,
    user_id: i64,
    conversation_id: u128,
    title: String,
    now: i64,
) -> (r: Result<Conversation, StoreError>)
    requires
        old(tx).wf(),
    ensures
        final(tx).wf(),
        r.is_err() <==> !old(tx).has(user_id, conversation_id),
        match r {
            Ok(c) => {
                let i = row_index(old(tx)@, user_id, conversation_id);
                &&& old(tx).has(user_id, conversation_id)
                &&& c@ == renamed_row(old(tx)@[i], title@, now)
                &&& final(tx)@ == old(tx)@.update(i, c@)
            },
            Err(e) => e == StoreError::NotFound && final(tx)@ == old(tx)@,
        },
{
    let i = match tx.position_of(conversation_id) {
        Some(i) => i,
        None => {
            return Err(StoreError::NotFound);
        },
    };
    if tx.rows[i].user_id != user_id {
        return Err(StoreError::NotFound);
    }
    proof {
        assert(old(tx)@[i as int] == tx.rows@[i as int]@);
    }
    let ghost before = tx.rows@[i as int]@;
    let ghost new_title = title@;
    let mut row = tx.rows.remove(i);
    row.title = title;
    row.updated_at = if now < row.created_at {
        row.created_at
    } else {
        now
    };
    let snapshot = row.copy();
    tx.rows.insert(i, row);
    proof {
        assert(tx.rows@ =~= old(tx).rows@.update(i as int, tx.rows@[i as int]));
        assert(tx@ =~= old(tx)@.update(i as int, snapshot@));
        assert(snapshot@ == renamed_row(before, new_title, now));
        assert(matches_keys(old(tx)@[i as int], user_id, conversation_id));
        assert(row_index(old(tx)@, user_id, conversation_id) == i) by {
            let j = row_index(old(tx)@, user_id, conversation_id);
            assert(old(tx)@[j] == old(tx).rows@[j]@);
        }
    }
    Ok(snapshot)
}

/// Sets the title as `edit_title_at` does, stamped with the time now.
pub fn edit_title(tx: &mut ConversationTable, user_id: i64, conversation_id: u128, title: String) -> (r:
    Result<Conversation, StoreError>)
    requires
        old(tx).wf(),
    ensures
        final(tx).wf(),
        r.is_err() <==> !old(tx).has(user_id, conversation_id),
        match r {
            Ok(c) => {
                let i = row_index(old(tx)@, user_id, conversation_id);
                &&& old(tx).has(user_id, conversation_id)
                &&& exists|now: i64| c@ == renamed_row(old(tx)@[i], title@, now)
                &&& final(tx)@ == old(tx)@.update(i, c@)
            },
            Err(e) => e == StoreError::NotFound && final(tx)@ == old(tx)@,
        },
{
    let now = now_millis();
    edit_title_at(tx, user_id, conversation_id, title, now)
}

/// A conversation that another user owns is, to `user_id`, the same as one
/// that does not exist: in both cases no row has both keys, so lookups,
/// appends and renames answer alike (`None` or `NotFound`).
pub proof fn lemma_foreign_is_missing(tx: &ConversationTable, user_id: i64, id: u128, owner: i64)
    requires
        tx.wf(),
        owner != user_id,
        exists|i: int| 0 <= i < tx@.len() && tx@[i].id == id && tx@[i].user_id == owner,
    ensures
        !tx.has(user_id, id),
{
    let i = choose|i: int| 0 <= i < tx@.len() && tx@[i].id == id && tx@[i].user_id == owner;
    assert forall|j: int| 0 <= j < tx.rows@.len() implies !matches_keys(tx.rows@[j]@, user_id, id) by {
        assert(tx@[j] == tx.rows@[j]@);
        assert(tx@[i] == tx.rows@[i]@);
    }
}

/// Two exchanges appended to one conversation, each at the end of the log it
/// was given, leave the conversation with the old log followed by both pairs,
/// in the order in which they were applied: neither pair is lost.
pub proof fn lemma_serial_appends_keep_both(
    c: ConversationView,
    first_point: nat,
    first_type: MessageType,
    first_content: Seq<char>,
    first_transcription: Option<Seq<char>>,
    first_images: Seq<Seq<char>>,
    first_answer: Seq<char>,
    first_now: i64,
    second_point: nat,
    second_type: MessageType,
    second_content: Seq<char>,
    second_transcription: Option<Seq<char>>,
    second_images: Seq<Seq<char>>,
    second_answer: Seq<char>,
    second_now: i64,
)
    requires
        first_point >= c.log.len(),
        second_point >= c.log.len() + 2,
    ensures
        ({
            let mid = appended_row(
                c,
                first_point,
                first_type,
                first_content,
                first_transcription,
                first_images,
                first_answer,
                first_now,
            );
            let r = appended_row(
                mid,
                second_point,
                second_type,
                second_content,
                second_transcription,
                second_images,
                second_answer,
                second_now,
            );
            &&& r.id == c.id
            &&& r.user_id == c.user_id
            &&& r.log == c.log + seq![
                user_entry(
                    c.log.len(),
                    first_type,
                    first_content,
                    first_transcription,
                    first_images,
                ),
                answer_entry(c.log.len(), first_answer),
                user_entry(
                    c.log.len() + 2,
                    second_type,
                    second_content,
                    second_transcription,
                    second_images,
                ),
                answer_entry(c.log.len() + 2, second_answer),
            ]
        }),
{
    lemma_appends_at_end_serialize(
        c.log,
        first_point,
        first_type,
        first_content,
        first_transcription,
        first_images,
        first_answer,
        second_point,
        second_type,
        second_content,
        second_transcription,
        second_images,
        second_answer,
    );
}

/// A rename sets the title to exactly what was given, of whatever length,
/// and keeps the log.
pub proof fn lemma_rename_keeps_title(c: ConversationView, title: Seq<char>, now: i64)
    ensures
        renamed_row(c, title, now).title == title,
        renamed_row(c, title, now).log == c.log,
{
}

/// An exchange appended at the start of the log gives a title of at most the
/// limit; one appended later keeps the title.
pub proof fn lemma_auto_title_bounded(
    c: ConversationView,
    branch_point: nat,
    msgtype: MessageType,
    content: Seq<char>,
    transcription: Option<Seq<char>>,
    images: Seq<Seq<char>>,
    answer: Seq<char>,
    now: i64,
)
    ensures
        ({
            let r = appended_row(c, branch_point, msgtype, content, transcription, images, answer, now);
            &&& branch_point == 0 ==> r.title.len() <= MAX_TITLE_CHARS
            &&& branch_point != 0 ==> r.title == c.title
        }),
{
    lemma_title_bounded(words_of(content), content);
}

} // verus!
