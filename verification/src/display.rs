//! Whole-chain display.
//!
//! A [`ChainDisplay`] renders a failure together with every cause below it
//! on one line: `error: ` and the failure's message first, then each
//! cause's message after a `; caused by: ` separator. Traces take no part
//! in this single-line rendering.

use vstd::prelude::*;
use vstd::string::StringExecFns;
use crate::trace::Trace;
use crate::{cause_of, fail_msg, lemma_cause_step, num_causes, Failure};

verus! {

/// The `; caused by: `-separated messages of everything below a failure.
pub open spec fn caused_tail(f: Failure) -> Seq<char>
    decreases num_causes(f),
    via caused_tail_dec
{
    match cause_of(f) {
        Option::Some(c) => "; caused by: "@ + fail_msg(c) + caused_tail(c),
        Option::None => Seq::empty(),
    }
}

#[via_fn]
proof fn caused_tail_dec(f: Failure) {
    lemma_cause_step(f);
}

/// The one-line rendering of a whole cause chain.
pub open spec fn chain_line(f: Failure) -> Seq<char> {
    "error: "@ + fail_msg(f) + caused_tail(f)
}

/// A display adapter for a failure and an optional capture-site trace:
/// renders the entire chain from the failure through all its causes. The
/// trace is carried for callers that print it beside the chain; the
/// single-line rendering leaves it out.
pub struct ChainDisplay<'a>(pub &'a Failure, pub Option<&'a Trace>);

fn caused_into(f: &Failure, s: &mut String)
    ensures
        final(s)@ == old(s)@ + caused_tail(*f),
    decreases num_causes(*f),
{
    proof {
        lemma_cause_step(*f);
    }
    match f.cause() {
        Some(c) => {
            s.append("; caused by: ");
            let msg = c.display();
            s.append(msg.as_str());
            caused_into(c, s);
            assert(final(s)@ =~= old(s)@ + caused_tail(*f));
        },
        None => {
            assert(final(s)@ =~= old(s)@ + caused_tail(*f));
        },
    }
}

impl<'a> ChainDisplay<'a> {
    /// The single-line rendering of the whole chain.
    pub fn display(&self) -> (r: String)
        ensures
            r@ == chain_line(*self.0),
    {
        let mut s = String::from_str("error: ");
        let msg = self.0.display();
        s.append(msg.as_str());
        caused_into(self.0, &mut s);
        assert(s@ =~= chain_line(*self.0));
        s
    }
}

} // verus!
