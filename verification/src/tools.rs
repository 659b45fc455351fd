use vstd::prelude::*;

verus! {

/// The fixed acknowledgment a notification reports to its caller,
/// whatever the human answered.
pub open spec fn notify_ack_text() -> Seq<char> {
    "Status reported successfully"@
}

/// The tool that asks the human a question and hands their literal reply
/// back as the tool result.
pub struct AskHumanTool {
    question: String,
}

impl AskHumanTool {
    /// The question to put to the human.
    pub closed spec fn spec_question(&self) -> Seq<char> {
        self.question@
    }

    /// A tool call carrying one question.
    pub fn new(question: String) -> (t: AskHumanTool)
        ensures
            t.spec_question() == question@,
    {
        AskHumanTool { question }
    }

    /// The question to send to the backend's `ask`.
    pub fn question(&self) -> (q: &String)
        ensures
            q@ == self.spec_question(),
    {
        &self.question
    }

    /// The tool result for the human's answer: the literal reply text,
    /// unchanged — which on a timeout is the deferral message `ask`
    /// returned.
    pub fn tool_result(&self, answer: String) -> (r: String)
        ensures
            r@ == answer@,
    {
        answer
    }
}

/// The tool that reports status to the human. There is no fire-and-forget
/// path: a notification goes through the same blocking `ask` as a
/// question, and the human's actual reply is discarded in favour of a
/// fixed acknowledgment.
pub struct NotifyHumanTool {
    message: String,
}

impl NotifyHumanTool {
    /// The status message to report.
    pub closed spec fn spec_message(&self) -> Seq<char> {
        self.message@
    }

    /// A tool call carrying one status message.
    pub fn new(message: String) -> (t: NotifyHumanTool)
        ensures
            t.spec_message() == message@,
    {
        NotifyHumanTool { message }
    }

    /// The message to send to the backend's `ask`.
    pub fn message(&self) -> (m: &String)
        ensures
            m@ == self.spec_message(),
    {
        &self.message
    }

    /// The tool result: whatever the human answered, the caller only sees
    /// the fixed acknowledgment.
    pub fn tool_result(&self, answer: String) -> (r: String)
        ensures
            r@ == notify_ack_text(),
    {
        let _ = answer;
        "Status reported successfully".to_owned()
    }
}

} // verus!
