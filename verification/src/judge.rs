//! What comes back from the external competitive-programming judge, and the
//! decision over it: whether a player's recent submissions contain an
//! accepted solution of the requested problem. The HTTP fetching and its
//! caching live outside this crate; the decision is made here.

use vstd::prelude::*;

verus! {

/// One problem of a contest, as the judge describes it.
#[derive(Clone, Debug)]
pub struct Problem {
    pub contest_id: Option<i32>,
    pub index: String,
    pub name: String,
    pub rating: Option<i32>,
    pub tags: Vec<String>,
}

/// One submission of a player, as the judge reports it.
#[derive(Clone, Debug)]
pub struct Submission {
    pub id: i64,
    pub verdict: Option<String>,
    pub problem: Problem,
}

/// Whether submission `s` is an accepted solution of problem `index` of
/// contest `contest_id`: the judge's verdict is the accepting one and the
/// problem coordinates match.
pub open spec fn submission_accepts(s: Submission, contest_id: i32, index: Seq<char>) -> bool {
    match s.verdict {
        Some(v) => v@ == "OK"@ && s.problem.contest_id == Some(contest_id) && s.problem.index@
            == index,
        None => false,
    }
}

/// Whether `submissions` contains an accepted solution of problem `index`
/// of contest `contest_id`.
pub fn has_accepted_submission(submissions: &Vec<Submission>, contest_id: i32, index: &String) -> (b:
    bool)
    ensures
        b == exists|i: int|
            0 <= i < submissions@.len() && submission_accepts(
                #[trigger] submissions@[i],
                contest_id,
                index@,
            ),
{
    let accepted: String = "OK".to_owned();
    let n = submissions.len();
    let mut i: usize = 0;
    while i < n
        invariant
            n == submissions@.len(),
            i <= n,
            accepted@ == "OK"@,
            forall|j: int|
                0 <= j < i as int ==> !submission_accepts(
                    #[trigger] submissions@[j],
                    contest_id,
                    index@,
                ),
        decreases n - i,
    {
        let s = &submissions[i];
        let verdict_ok = match &s.verdict {
            Some(v) => *v == accepted,
            None => false,
        };
        if verdict_ok {
            let coords_ok = match s.problem.contest_id {
                Some(c) => c == contest_id,
                None => false,
            };
            if coords_ok && s.problem.index == *index {
                return true;
            }
        }
        i = i + 1;
    }
    false
}

} // verus!
