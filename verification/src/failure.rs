//! The gateway's error value: a message with the chain of causes behind it.

use vstd::prelude::*;

verus! {

/// What a cause says beyond its message.
#[derive(Debug, Clone, Copy, PartialEq, Eq, Structural)]
pub enum FailureKind {
    AgentNotReady,
    ContainerNotFound,
    GatewayLabel,
    Other,
}

/// One link of a failure's chain.
#[derive(Debug, Clone, PartialEq, Eq)]
pub struct Cause {
    pub kind: FailureKind,
    pub message: String,
}

impl View for Cause {
    type V = (FailureKind, Seq<char>);

    open spec fn view(&self) -> (FailureKind, Seq<char>) {
        (self.kind, self.message@)
    }
}

/// A failure: the outermost message first, then what caused it.
#[derive(Debug, Clone, PartialEq, Eq)]
pub struct Failure {
    pub head: Cause,
    pub causes: Vec<Cause>,
}

/// The mathematical model of a failure: its links from the outside in.
pub type Chain = Seq<(FailureKind, Seq<char>)>;

impl View for Failure {
    type V = Chain;

    open spec fn view(&self) -> Chain {
        seq![self.head@] + Seq::new(self.causes@.len(), |i: int| self.causes@[i]@)
    }
}

/// The chain of a failure that carries a message alone.
pub open spec fn plain(message: Seq<char>) -> Chain {
    seq![(FailureKind::Other, message)]
}

/// The chain of `cause` under one more message.
pub open spec fn under(message: Seq<char>, cause: Chain) -> Chain {
    plain(message) + cause
}

/// Whether some link of the chain has the given kind.
pub open spec fn has_kind(chain: Chain, kind: FailureKind) -> bool {
    exists|i: int| 0 <= i < chain.len() && (#[trigger] chain[i]).0 == kind
}

/// The messages of a chain from the outside in, joined by `": "`.
pub open spec fn spelled_out(chain: Chain) -> Seq<char>
    decreases chain.len(),
{
    if chain.len() == 0 {
        Seq::empty()
    } else if chain.len() == 1 {
        chain[0].1
    } else {
        spelled_out(chain.drop_last()) + ": "@ + chain.last().1
    }
}

/// A result seen through the models of its value and its failure.
pub open spec fn outcome<T: View>(r: Result<T, Failure>) -> Result<T::V, Chain> {
    match r {
        Ok(value) => Ok(value@),
        Err(failure) => Err(failure@),
    }
}

/// What a check says: nothing, or why it refuses.
pub open spec fn refusal(r: Result<(), Failure>) -> Option<Chain> {
    match r {
        Ok(_) => None,
        Err(failure) => Some(failure@),
    }
}

/// The first of two refusals.
pub open spec fn either(a: Option<Chain>, b: Option<Chain>) -> Option<Chain> {
    if a is Some {
        a
    } else {
        b
    }
}

pub open spec fn unless(holds: bool, message: Seq<char>) -> Option<Chain> {
    if holds {
        None
    } else {
        Some(plain(message))
    }
}

pub open spec fn failed<T>(r: Result<T, Failure>) -> Option<Chain> {
    match r {
        Ok(_) => None,
        Err(failure) => Some(failure@),
    }
}

impl Failure {
    /// A failure with a message and nothing behind it.
    pub fn msg(message: &str) -> (r: Failure)
        ensures
            r@ == plain(message@),
    {
        Failure {
            head: Cause { kind: FailureKind::Other, message: message.to_owned() },
            causes: Vec::new(),
        }
    }

    /// A failure of a known kind.
    pub fn typed(kind: FailureKind, message: &str) -> (r: Failure)
        ensures
            r@ == seq![(kind, message@)],
    {
        Failure { head: Cause { kind, message: message.to_owned() }, causes: Vec::new() }
    }

    /// Puts one more message around a failure.
    pub fn context(self, message: &str) -> (r: Failure)
        ensures
            r@ == under(message@, self@),
    {
        let ghost before = self@;
        let mut causes = self.causes;
        causes.insert(0, self.head);
        let r = Failure {
            head: Cause { kind: FailureKind::Other, message: message.to_owned() },
            causes,
        };
        assert(r@ =~= under(message@, before));
        r
    }

    /// A copy of a failure.
    pub fn duplicate(&self) -> (r: Failure)
        ensures
            r@ == self@,
    {
        let mut causes: Vec<Cause> = Vec::new();
        let mut i: usize = 0;
        while i < self.causes.len()
            invariant
                i <= self.causes.len(),
                causes@ == self.causes@.take(i as int),
            decreases self.causes.len() - i,
        {
            causes.push(
                Cause { kind: self.causes[i].kind, message: self.causes[i].message.clone() },
            );
            i += 1;
        }
        assert(causes@ =~= self.causes@);
        Failure {
            head: Cause { kind: self.head.kind, message: self.head.message.clone() },
            causes,
        }
    }

    /// The outermost message.
    pub fn message(&self) -> (r: String)
        ensures
            r@ == self@[0].1,
    {
        self.head.message.clone()
    }

    /// All messages, from the outside in.
    pub fn full_message(&self) -> (r: String)
        ensures
            r@ == spelled_out(self@),
    {
        let mut out = self.head.message.clone();
        let mut i: usize = 0;
        assert(self@.take(1) =~= seq![self.head@]);
        while i < self.causes.len()
            invariant
                i <= self.causes.len(),
                out@ == spelled_out(self@.take(i + 1)),
            decreases self.causes.len() - i,
        {
            proof {
                let next = self@.take(i + 2);
                assert(next.drop_last() =~= self@.take(i + 1));
                assert(next.last() == self.causes@[i as int]@);
            }
            out.append(": ");
            out.append(self.causes[i].message.as_str());
            i += 1;
        }
        assert(self@.take(i + 1) =~= self@);
        out
    }

    /// Whether some link of the chain has the given kind.
    pub fn is_kind(&self, kind: FailureKind) -> (r: bool)
        ensures
            r == has_kind(self@, kind),
    {
        if self.head.kind == kind {
            assert(self@[0].0 == kind);
            return true;
        }
        let mut i: usize = 0;
        while i < self.causes.len()
            invariant
                i <= self.causes.len(),
                forall|j: int| 0 <= j < i + 1 ==> (#[trigger] self@[j]).0 != kind,
            decreases self.causes.len() - i,
        {
            assert(self@[i + 1] == self.causes@[i as int]@);
            if self.causes[i].kind == kind {
                return true;
            }
            i += 1;
        }
        false
    }
}

/// Putting a message around a failure keeps the kinds inside it visible.
pub proof fn context_keeps_kinds(message: Seq<char>, cause: Chain, kind: FailureKind)
    ensures
        kind != FailureKind::Other ==> has_kind(under(message, cause), kind) == has_kind(
            cause,
            kind,
        ),
        under(message, cause)[0].1 == message,
{
    let outer = under(message, cause);
    assert forall|i: int| 0 <= i < cause.len() implies #[trigger] outer[i + 1] == cause[i] by {}
    if kind != FailureKind::Other {
        if has_kind(cause, kind) {
            let i = choose|i: int| 0 <= i < cause.len() && (#[trigger] cause[i]).0 == kind;
            assert(outer[i + 1].0 == kind);
        }
        if has_kind(outer, kind) {
            let i = choose|i: int| 0 <= i < outer.len() && (#[trigger] outer[i]).0 == kind;
            assert(cause[i - 1].0 == kind);
        }
    }
}

/// A failure is told from the outside in: the message around it comes first, then
/// a colon, then what the failure itself says.
pub proof fn failures_are_told_from_the_outside_in(message: Seq<char>, cause: Chain)
    requires
        cause.len() > 0,
    ensures
        spelled_out(plain(message)) == message,
        spelled_out(under(message, cause)) == message + ": "@ + spelled_out(cause),
    decreases cause.len(),
{
    let all = under(message, cause);
    assert(all.last() == cause.last());
    assert(spelled_out(plain(message)) == message);
    if cause.len() == 1 {
        assert(all.drop_last() =~= plain(message));
        assert(spelled_out(cause) == cause.last().1);
    } else {
        assert(all.drop_last() =~= under(message, cause.drop_last()));
        failures_are_told_from_the_outside_in(message, cause.drop_last());
        assert(message + ": "@ + spelled_out(cause.drop_last()) + ": "@ + cause.last().1 =~= message
            + ": "@ + (spelled_out(cause.drop_last()) + ": "@ + cause.last().1));
    }
}

/// A failure of some kind has that kind and no other, unless it is put around
/// another failure, whose kinds it keeps.
pub proof fn failures_have_their_kinds(kind: FailureKind, other: FailureKind, message: Seq<char>)
    ensures
        has_kind(seq![(kind, message)], other) <==> kind == other,
        has_kind(plain(message), other) <==> other == FailureKind::Other,
{
    assert(seq![(kind, message)][0].0 == kind);
    assert(plain(message)[0].0 == FailureKind::Other);
}

/// Of two checks the first refusal counts; only where neither refuses is there
/// none. What must hold is refused exactly when it does not.
pub proof fn the_first_refusal_counts(
    a: Option<Chain>,
    b: Option<Chain>,
    holds: bool,
    message: Seq<char>,
)
    ensures
        either(a, b) is None <==> a is None && b is None,
        a is Some ==> either(a, b) == a,
        a is None ==> either(a, b) == b,
        unless(holds, message) is None <==> holds,
        !holds ==> spelled_out(unless(holds, message)->0) == message,
{
}

} // verus!
