use vstd::prelude::*;
use crate::message::{log_view, opt_string_view, strings_view, Message, MessageType, MessageView, Role};
use crate::title::{derive_title, title_of, words_of};

verus! {

/// Where a resubmission at `branch_point` cuts a log of `len` messages.
pub open spec fn cut_point(len: nat, branch_point: nat) -> nat {
    if branch_point < len {
        branch_point
    } else {
        len
    }
}

/// The view of the message that a user submits at position `k` of a log.
pub open spec fn user_entry(
    k: nat,
    msgtype: MessageType,
    content: Seq<char>,
    transcription: Option<Seq<char>>,
    images: Seq<Seq<char>>,
) -> MessageView {
    MessageView { msgtype, id: k + 1, role: Role::User, content, transcription, images }
}

/// The view of the answer that follows a user message submitted at position `k`.
pub open spec fn answer_entry(k: nat, answer: Seq<char>) -> MessageView {
    MessageView {
        msgtype: MessageType::Text,
        id: k + 1,
        role: Role::Assistant,
        content: answer,
        transcription: None,
        images: Seq::empty(),
    }
}

/// The log after a resubmission at `branch_point`: the messages before the cut,
/// then the user's message and the answer.
pub open spec fn branched_log(
    log: Seq<MessageView>,
    branch_point: nat,
    msgtype: MessageType,
    content: Seq<char>,
    transcription: Option<Seq<char>>,
    images: Seq<Seq<char>>,
    answer: Seq<char>,
) -> Seq<MessageView> {
    let k = cut_point(log.len(), branch_point);
    log.take(k as int).push(user_entry(k, msgtype, content, transcription, images)).push(
        answer_entry(k, answer),
    )
}

/// The title after a resubmission at `branch_point`: derived from the new
/// message for the first exchange, kept otherwise.
pub open spec fn branched_title(title: Seq<char>, branch_point: nat, content: Seq<char>) -> Seq<
    char,
> {
    if branch_point == 0 {
        title_of(words_of(content), content)
    } else {
        title
    }
}

/// Cuts the log at `branch_point`, derives the title anew when the exchange is
/// the first one, and appends the user's message and the assistant's answer.
/// The user message is numbered one past the cut log; the answer is numbered
/// by the log's length once the user message is in, which is the same number.
pub fn apply_branch_and_append(
    log: &mut Vec<Message>,
    title: &mut String,
    branch_point: usize,
    user_message_type: MessageType,
    user_message: String,
    transcription: Option<String>,
    images: Vec<String>,
    answer: String,
)
    requires
        cut_point(old(log)@.len(), branch_point as nat) + 2 <= usize::MAX,
    ensures
        log_view(final(log)@) == branched_log(
            log_view(old(log)@),
            branch_point as nat,
            user_message_type,
            user_message@,
            opt_string_view(transcription),
            strings_view(images@),
            answer@,
        ),
        final(title)@ == branched_title(old(title)@, branch_point as nat, user_message@),
{
    if branch_point < log.len() {
        log.truncate(branch_point);
    }
    let ghost cut = log@;
    if branch_point == 0 {
        *title = derive_title(user_message.as_str());
    }
    let user_id: usize = log.len() + 1;
    log.push(
        Message {
            msgtype: user_message_type,
            id: user_id,
            role: Role::User,
            content: user_message,
            transcription,
            images,
        },
    );
    let answer_id: usize = log.len();
    log.push(
        Message {
            msgtype: MessageType::Text,
            id: answer_id,
            role: Role::Assistant,
            content: answer,
            transcription: None,
            images: Vec::new(),
        },
    );
    proof {
        let k = cut_point(old(log)@.len(), branch_point as nat);
        assert(cut =~= old(log)@.take(k as int));
        assert(strings_view(log@[k as int + 1].images@) =~= Seq::<Seq<char>>::empty());
        assert(log_view(log@) =~= branched_log(
            log_view(old(log)@),
            branch_point as nat,
            user_message_type,
            user_message@,
            opt_string_view(transcription),
            strings_view(images@),
            answer@,
        ));
    }
}

/// After an exchange is appended, the log holds exactly two messages more than
/// the cut log; an even log cut at an even point, or not cut, stays even.
pub proof fn lemma_append_adds_pair(
    log: Seq<MessageView>,
    branch_point: nat,
    msgtype: MessageType,
    content: Seq<char>,
    transcription: Option<Seq<char>>,
    images: Seq<Seq<char>>,
    answer: Seq<char>,
)
    requires
        log.len() % 2 == 0,
        branch_point % 2 == 0 || branch_point >= log.len(),
    ensures
        ({
            let r = branched_log(log, branch_point, msgtype, content, transcription, images, answer);
            &&& r.len() == cut_point(log.len(), branch_point) + 2
            &&& r.len() % 2 == 0
        }),
{
}

/// Branching before the end of the log keeps the first `branch_point`
/// messages as they were and puts the new user message right after them.
pub proof fn lemma_branch_keeps_prefix(
    log: Seq<MessageView>,
    branch_point: nat,
    msgtype: MessageType,
    content: Seq<char>,
    transcription: Option<Seq<char>>,
    images: Seq<Seq<char>>,
    answer: Seq<char>,
)
    requires
        branch_point < log.len(),
    ensures
        ({
            let r = branched_log(log, branch_point, msgtype, content, transcription, images, answer);
            &&& r.take(branch_point as int) == log.take(branch_point as int)
            &&& r[branch_point as int] == user_entry(
                branch_point,
                msgtype,
                content,
                transcription,
                images,
            )
        }),
{
    let r = branched_log(log, branch_point, msgtype, content, transcription, images, answer);
    assert(r.take(branch_point as int) =~= log.take(branch_point as int));
}

/// Two exchanges appended one after the other at the end of the log both
/// stay, in the order in which they were applied, after the original log.
pub proof fn lemma_appends_at_end_serialize(
    log: Seq<MessageView>,
    first_point: nat,
    first_type: MessageType,
    first_content: Seq<char>,
    first_transcription: Option<Seq<char>>,
    first_images: Seq<Seq<char>>,
    first_answer: Seq<char>,
    second_point: nat,
    second_type: MessageType,
    second_content: Seq<char>,
    second_transcription: Option<Seq<char>>,
    second_images: Seq<Seq<char>>,
    second_answer: Seq<char>,
)
    requires
        first_point >= log.len(),
        second_point >= log.len() + 2,
    ensures
        ({
            let mid = branched_log(
                log,
                first_point,
                first_type,
                first_content,
                first_transcription,
                first_images,
                first_answer,
            );
            let r = branched_log(
                mid,
                second_point,
                second_type,
                second_content,
                second_transcription,
                second_images,
                second_answer,
            );
            r == log + seq![
                user_entry(log.len(), first_type, first_content, first_transcription, first_images),
                answer_entry(log.len(), first_answer),
                user_entry(
                    log.len() + 2,
                    second_type,
                    second_content,
                    second_transcription,
                    second_images,
                ),
                answer_entry(log.len() + 2, second_answer),
            ]
        }),
{
    let mid = branched_log(
        log,
        first_point,
        first_type,
        first_content,
        first_transcription,
        first_images,
        first_answer,
    );
    let r = branched_log(
        mid,
        second_point,
        second_type,
        second_content,
        second_transcription,
        second_images,
        second_answer,
    );
    assert(log.take(log.len() as int) =~= log);
    assert(mid.take(mid.len() as int) =~= mid);
    assert(r =~= log + seq![
        user_entry(log.len(), first_type, first_content, first_transcription, first_images),
        answer_entry(log.len(), first_answer),
        user_entry(log.len() + 2, second_type, second_content, second_transcription, second_images),
        answer_entry(log.len() + 2, second_answer),
    ]);
}

} // verus!
