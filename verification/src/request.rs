//! The state of one inbound request that resolution shares: the fetch
//! budget, and the answers to the fetches made so far.

use vstd::prelude::*;

use crate::error::Error;
use crate::url::{Url, UrlView};

verus! {

/// How a fetch ended.
#[derive(Debug)]
pub enum FetchOutcome {
    /// No answer was had from the remote server.
    Unreachable,
    /// The remote server answered.
    Response {
        /// The media type that the answer declares, without parameters.
        content_type: String,
        /// The body of the answer.
        body: Vec<u8>,
    },
}

/// What a [`FetchOutcome`] stands for.
pub enum FetchOutcomeView {
    Unreachable,
    Response { content_type: Seq<char>, body: Seq<u8> },
}

impl View for FetchOutcome {
    type V = FetchOutcomeView;

    open spec fn view(&self) -> FetchOutcomeView {
        match self {
            FetchOutcome::Unreachable => FetchOutcomeView::Unreachable,
            FetchOutcome::Response { content_type, body } => FetchOutcomeView::Response {
                content_type: content_type@,
                body: body@,
            },
        }
    }
}

/// The answer to one fetch, with the URL that was fetched.
#[derive(Debug)]
pub struct Fetched {
    pub url: Url,
    pub outcome: FetchOutcome,
}

/// What a [`Fetched`] stands for.
pub struct FetchedView {
    pub url: UrlView,
    pub outcome: FetchOutcomeView,
}

impl View for Fetched {
    type V = FetchedView;

    open spec fn view(&self) -> FetchedView {
        FetchedView { url: self.url@, outcome: self.outcome@ }
    }
}

/// The first answer in a list that belongs to a URL.
pub open spec fn first_answer(answers: Seq<FetchedView>, url: UrlView) -> Option<FetchOutcomeView>
    decreases answers.len(),
{
    if answers.len() == 0 {
        None
    } else if answers[0].url == url {
        Some(answers[0].outcome)
    } else {
        first_answer(answers.drop_first(), url)
    }
}

/// An answer that is added to a list is found under its URL unless an
/// earlier one is; under other URLs the same is found as before.
pub proof fn lemma_first_answer_push(answers: Seq<FetchedView>, added: FetchedView, url: UrlView)
    ensures
        first_answer(answers.push(added), url) == match first_answer(answers, url) {
            Some(outcome) => Some(outcome),
            None => if added.url == url {
                Some(added.outcome)
            } else {
                None
            },
        },
    decreases answers.len(),
{
    if answers.len() == 0 {
        assert(answers.push(added).drop_first() =~= answers);
    } else {
        assert(answers.push(added).drop_first() =~= answers.drop_first().push(added));
        lemma_first_answer_push(answers.drop_first(), added, url);
    }
}

/// What a [`RequestData`] stands for.
pub struct RequestView {
    /// The budget with which the request began.
    pub limit: nat,
    /// How many fetches may still be asked for.
    pub remaining: nat,
    /// The answers to the fetches made so far, oldest first.
    pub answers: Seq<FetchedView>,
    /// The URL of a fetch that was asked for and is not answered yet.
    pub pending: Option<UrlView>,
    /// The text from which fresh identifiers are made.
    pub token: Seq<char>,
}

impl RequestView {
    /// Every fetch that the budget paid for is answered or pending.
    pub open spec fn wf(self) -> bool {
        self.answers.len() + (if self.pending.is_some() { 1nat } else { 0nat }) + self.remaining
            == self.limit
    }

    /// How many fetches were asked for so far.
    pub open spec fn issued(self) -> nat {
        (self.limit - self.remaining) as nat
    }

    /// The answer that was had for a URL, if any.
    pub open spec fn answer_for(self, url: UrlView) -> Option<FetchOutcomeView> {
        first_answer(self.answers, url)
    }

    /// Whether asking for a URL now starts a fetch.
    pub open spec fn grants(self) -> bool {
        self.pending.is_none() && self.remaining > 0
    }

    /// The request after a URL was asked for: where nothing is pending and
    /// budget is left, one unit is spent and the URL is pending.
    pub open spec fn asked(self, url: UrlView) -> RequestView {
        if self.grants() {
            RequestView { remaining: (self.remaining - 1) as nat, pending: Some(url), ..self }
        } else {
            self
        }
    }

    /// The request after the pending fetch was answered.
    pub open spec fn answered(self, outcome: FetchOutcomeView) -> RequestView {
        RequestView {
            answers: self.answers.push(FetchedView { url: self.pending.unwrap(), outcome }),
            pending: None,
            ..self
        }
    }
}

/// The state that the resolutions of one inbound request share. Made when
/// the request arrives, dropped when it is answered.
#[derive(Debug)]
pub struct RequestData {
    limit: u32,
    answers: Vec<Fetched>,
    pending: Option<Url>,
    token: String,
}

/// The views of a list of answers.
pub open spec fn answer_views(answers: Seq<Fetched>) -> Seq<FetchedView> {
    answers.map_values(|a: Fetched| a@)
}

impl View for RequestData {
    type V = RequestView;

    closed spec fn view(&self) -> RequestView {
        RequestView {
            limit: self.limit as nat,
            remaining: (self.limit - self.answers@.len() - if self.pending.is_some() {
                1int
            } else {
                0int
            }) as nat,
            answers: answer_views(self.answers@),
            pending: match self.pending {
                Some(url) => Some(url@),
                None => None,
            },
            token: self.token@,
        }
    }
}

impl RequestData {
    /// The fetches asked for so far do not exceed the limit.
    #[verifier::type_invariant]
    pub closed spec fn within_limit(&self) -> bool {
        self.answers@.len() + (if self.pending.is_some() {
            1int
        } else {
            0int
        }) <= self.limit
    }

    /// A request within its limit accounts for its budget.
    pub proof fn lemma_accounted(self)
        requires
            self.within_limit(),
        ensures
            self@.wf(),
    {
    }

    /// The state of a request that has fetched nothing yet.
    pub fn new(limit: u32, token: String) -> (r: RequestData)
        ensures
            r@ == (RequestView {
                limit: limit as nat,
                remaining: limit as nat,
                answers: Seq::empty(),
                pending: None,
                token: token@,
            }),
            r@.wf(),
    {
        let r = RequestData { limit, answers: Vec::new(), pending: None, token };
        assert(answer_views(r.answers@) =~= Seq::empty());
        r
    }

    /// The budget with which the request began.
    pub fn limit(&self) -> (r: u32)
        ensures
            r == self@.limit,
            self@.wf(),
    {
        proof {
            use_type_invariant(self);
        }
        self.limit
    }

    /// How many fetches were asked for so far.
    pub fn issued(&self) -> (r: u32)
        ensures
            r == self@.issued(),
            self@.wf(),
    {
        proof {
            use_type_invariant(self);
        }
        let pending: usize = if self.pending.is_some() {
            1
        } else {
            0
        };
        (self.answers.len() + pending) as u32
    }

    /// How many fetches may still be asked for.
    pub fn remaining(&self) -> (r: u32)
        ensures
            r == self@.remaining,
            self@.wf(),
    {
        self.limit - self.issued()
    }

    /// The URL of the fetch that is asked for and not answered yet.
    pub fn pending(&self) -> (r: Option<&Url>)
        ensures
            match r {
                Some(url) => self@.pending == Some(url@),
                None => self@.pending.is_none(),
            },
    {
        self.pending.as_ref()
    }

    /// The text from which fresh identifiers are made.
    pub fn token(&self) -> (r: &String)
        ensures
            r@ == self@.token,
    {
        &self.token
    }

    /// The answer that was had for a URL, if any.
    pub fn answer_for(&self, url: &Url) -> (r: Option<&FetchOutcome>)
        ensures
            match r {
                Some(outcome) => self@.answer_for(url@) == Some(outcome@),
                None => self@.answer_for(url@).is_none(),
            },
    {
        let ghost all = answer_views(self.answers@);
        let mut i: usize = 0;
        assert(all.skip(0) =~= all);
        while i < self.answers.len()
            invariant
                i <= self.answers.len(),
                all == answer_views(self.answers@),
                first_answer(all, url@) == first_answer(all.skip(i as int), url@),
            decreases self.answers.len() - i,
        {
            assert(all.skip(i as int)[0] == self.answers@[i as int]@);
            if self.answers[i].url.equals(url) {
                return Some(&self.answers[i].outcome);
            }
            assert(all.skip(i as int).drop_first() =~= all.skip(i as int + 1));
            i += 1;
        }
        None
    }

    /// Asks for a URL to be fetched. Where a fetch is already pending
    /// nothing changes; else one unit of the budget is spent and the URL
    /// is pending, or, with no budget left, the request is refused.
    pub fn ask(&mut self, url: &Url) -> (r: Result<(), Error>)
        ensures
            final(self)@ == old(self)@.asked(url@),
            old(self)@.wf(),
            final(self)@.wf(),
            r == if old(self)@.pending.is_none() && old(self)@.remaining == 0 {
                Err::<(), Error>(Error::RecursionLimitExceeded)
            } else {
                Ok(())
            },
    {
        proof {
            use_type_invariant(&*self);
        }
        if self.pending.is_some() {
            Ok(())
        } else if self.answers.len() >= self.limit as usize {
            Err(Error::RecursionLimitExceeded)
        } else {
            self.pending = Some(url.clone());
            Ok(())
        }
    }

    /// Records the answer to the pending fetch. Without a pending fetch
    /// nothing is recorded.
    pub fn answer(&mut self, outcome: FetchOutcome)
        ensures
            final(self)@ == if old(self)@.pending.is_some() {
                old(self)@.answered(outcome@)
            } else {
                old(self)@
            },
            old(self)@.wf(),
            final(self)@.wf(),
    {
        proof {
            use_type_invariant(&*self);
        }
        let mut slot: Option<Url> = None;
        std::mem::swap(&mut slot, &mut self.pending);
        match slot {
            None => {},
            Some(url) => {
                let mut answers: Vec<Fetched> = Vec::new();
                std::mem::swap(&mut answers, &mut self.answers);
                let ghost before = answers@;
                answers.push(Fetched { url, outcome });
                assert(answer_views(answers@) =~= answer_views(before).push(
                    FetchedView { url: url@, outcome: outcome@ },
                ));
                self.answers = answers;
            },
        }
    }
}

} // verus!
