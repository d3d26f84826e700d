//! The security questions offered at registration: public rows a user
//! picks from, listed in id order.

use vstd::prelude::*;

verus! {

/// One security question.
#[derive(Clone, Debug)]
pub struct SecurityQuestion {
    pub id: i64,
    pub question_text: String,
}

/// The body of the question-list response.
#[derive(Clone, Debug)]
pub struct SecurityQuestionsResponse {
    pub questions: Vec<SecurityQuestion>,
}

/// Wrap the stored questions for the response.
pub fn list_security_questions(rows: Vec<SecurityQuestion>) -> (r: SecurityQuestionsResponse)
    ensures
        r.questions@ == rows@,
{
    SecurityQuestionsResponse { questions: rows }
}

} // verus!
