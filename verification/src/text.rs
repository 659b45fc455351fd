use vstd::prelude::*;
use vstd::string::*;

verus! {

/// Greatest number of characters of a question used as a thread title.
pub const TITLE_LIMIT: usize = 100;

/// The thread title derived from a question: its first 100 characters,
/// or the whole question when it is shorter.
pub open spec fn title_text(q: Seq<char>) -> Seq<char> {
    if q.len() <= 100 {
        q
    } else {
        q.take(100)
    }
}

/// Truncates a question to the text used as the thread title.
pub fn thread_title(question: &str) -> (t: String)
    ensures
        t@ == title_text(question@),
{
    let n = question.unicode_len();
    if n <= TITLE_LIMIT {
        question.to_owned()
    } else {
        question.substring_char(0, TITLE_LIMIT).to_owned()
    }
}

/// The title is a prefix of the question, at most 100 characters long,
/// and the whole question whenever that fits.
pub proof fn lemma_title_is_prefix(q: Seq<char>)
    ensures
        title_text(q).len() <= 100,
        title_text(q) == q.take(title_text(q).len() as int),
        q.len() <= 100 ==> title_text(q) == q,
{
    if q.len() <= 100 {
        assert(q.take(q.len() as int) =~= q);
    }
}

/// The message posted for a question: an explicit mention of the target
/// human, so that they are notified, followed by the text itself.
pub open spec fn mention_text(user: Seq<char>, body: Seq<char>) -> Seq<char> {
    "<@"@ + user + "> "@ + body
}

/// Builds the mention-prefixed message for a question or reply.
pub fn mention_message(user_id: &str, body: &str) -> (m: String)
    ensures
        m@ == mention_text(user_id@, body@),
{
    let mut m = String::from_str("<@");
    m.append(user_id);
    m.append("> ");
    m.append(body);
    proof {
        assert(m@ =~= mention_text(user_id@, body@));
    }
    m
}

/// The mention-prefixed message carries the body in full: the body, and
/// in particular an untruncated question, is a suffix of the message.
pub proof fn lemma_mention_keeps_body(user: Seq<char>, body: Seq<char>)
    ensures
        mention_text(user, body).len() == user.len() + body.len() + 4,
        mention_text(user, body).skip(user.len() as int + 4) == body,
{
    reveal_strlit("<@");
    reveal_strlit("> ");
    assert(mention_text(user, body).skip(user.len() as int + 4) =~= body);
}

} // verus!
