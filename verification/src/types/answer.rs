use vstd::prelude::*;

verus! {

/// The identifier of an answer, chosen by the caller.
#[derive(Debug, Clone, PartialEq, Eq, Hash)]
pub struct AnswerId(pub String);

/// The identifier of the question an answer belongs to.
#[derive(Debug, Clone, PartialEq, Eq, Hash)]
pub struct QuestionId(pub String);

/// An answer to a question: its identifier, its free text, and the question
/// it answers.
#[derive(Debug, Clone)]
pub struct Answer {
    pub id: AnswerId,
    pub content: String,
    pub question_id: QuestionId,
}

/// Assembles an answer from the three request parameters.
pub fn build_answer(id: String, content: String, question_id: String) -> (r: Answer)
    ensures
        r.id.0@ == id@,
        r.content@ == content@,
        r.question_id.0@ == question_id@,
{
    Answer { id: AnswerId(id), content, question_id: QuestionId(question_id) }
}

} // verus!
