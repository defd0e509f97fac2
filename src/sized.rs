//! The probe-then-fill protocol: ask for the size with an empty buffer, fill a
//! buffer of that size, and start over when the data grew in between.
//!
//! The calls themselves are the caller's; this module decides, from what each
//! call reported, what happens next, and shapes the buffer.
use vstd::prelude::*;

verus! {

/// Which call of the protocol has just returned.
#[derive(Clone, Copy, Debug, PartialEq, Eq, Structural)]
pub enum Call {
    /// The call with an empty buffer, which reports the size needed.
    Probe,
    /// The call with a buffer of the probed size, which writes the data.
    Fill,
}

/// What a call reported.
#[derive(Clone, Copy, Debug, PartialEq, Eq, Structural)]
pub enum Reply {
    /// A byte count: the size needed after a probe, the bytes written after a fill.
    Size(usize),
    /// A failure, with the OS error code it carried, if any.
    Failed(Option<i32>),
}

/// What to do after a call.
#[derive(Clone, Copy, Debug, PartialEq, Eq, Structural)]
pub enum Next {
    /// Probe the size again.
    Probe,
    /// Resize the buffer to this many bytes and fill it.
    Fill(usize),
    /// Cut the buffer to this many bytes and hand it back.
    Finish(usize),
    /// Hand back the failure that the call reported.
    Fail,
}

/// The step after `call` reported `reply`, where `race` is the code that
/// means the data changed size between the probe and the fill.
pub open spec fn next_spec(call: Call, reply: Reply, race: i32) -> Next {
    match (call, reply) {
        (Call::Probe, Reply::Size(n)) => Next::Fill(n),
        (Call::Fill, Reply::Size(n)) => Next::Finish(n),
        (Call::Fill, Reply::Failed(code)) => if code == Some(race) {
            Next::Probe
        } else {
            Next::Fail
        },
        (Call::Probe, Reply::Failed(_)) => Next::Fail,
    }
}

/// Decides the step after `call` reported `reply`, given the size-race code.
pub fn decide_next(call: Call, reply: Reply, race: i32) -> (r: Next)
    ensures
        r == next_spec(call, reply, race),
{
    match call {
        Call::Probe => match reply {
            Reply::Size(n) => Next::Fill(n),
            Reply::Failed(_) => Next::Fail,
        },
        Call::Fill => match reply {
            Reply::Size(n) => Next::Finish(n),
            Reply::Failed(code) => {
                if code == Some(race) {
                    Next::Probe
                } else {
                    Next::Fail
                }
            },
        },
    }
}

/// The code with which the target reports that the data changed size between
/// the probe and the fill (`ERANGE`).
pub uninterp spec fn race_of(target: ()) -> i32;

/// Relies on `rustix::io::Errno::RANGE` and `Errno::raw_os_error`: the raw code
/// with which the target reports that a buffer no longer fits the data. It is a
/// constant of the target that the crate is built for.
#[verifier::external_body]
fn size_race_code() -> (r: i32)
    ensures
        r == race_of(()),
{
    rustix::io::Errno::RANGE.raw_os_error()
}

/// Relies on `Vec::shrink_to_fit`: it gives back spare capacity and leaves the
/// elements as they are.
#[verifier::external_body]
fn release_spare(v: &mut Vec<u8>)
    ensures
        final(v)@ == old(v)@,
{
    v.shrink_to_fit()
}

/// Decides the step after `call` reported `reply`, comparing a failed fill's
/// code with the target's size-race code.
pub fn next_after(call: Call, reply: Reply) -> (r: Next)
    ensures
        r == next_spec(call, reply, race_of(())),
{
    let race = size_race_code();
    decide_next(call, reply, race)
}

/// `n` zero bytes.
pub open spec fn zeros(n: nat) -> Seq<u8> {
    Seq::new(n, |i: int| 0u8)
}

/// The buffer `buf` made `n` bytes long: cut, or padded with zeros.
pub open spec fn resized(buf: Seq<u8>, n: nat) -> Seq<u8> {
    if n <= buf.len() {
        buf.subrange(0, n as int)
    } else {
        buf + zeros((n - buf.len()) as nat)
    }
}

/// Makes `buf` exactly `n` bytes long before a fill, keeping what fits and
/// zero-filling the rest.
pub fn resize_for_fill(buf: &mut Vec<u8>, n: usize)
    ensures
        final(buf)@ == resized(old(buf)@, n as nat),
{
    buf.resize(n, 0u8);
    proof {
        if n > old(buf)@.len() {
            assert(final(buf)@ =~= resized(old(buf)@, n as nat));
        }
    }
}

/// The data that a fill reporting `size` bytes leaves in `buf`: its first
/// `size` bytes, or all of it where `size` is larger.
pub open spec fn filled(buf: Seq<u8>, size: nat) -> Seq<u8> {
    if size <= buf.len() {
        buf.subrange(0, size as int)
    } else {
        buf
    }
}

/// Turns the buffer of a fill that reported `size` bytes into the result: cut
/// to that size, with no spare capacity kept.
pub fn finish_buffer(buf: Vec<u8>, size: usize) -> (r: Vec<u8>)
    ensures
        r@ == filled(buf@, size as nat),
{
    let mut buf = buf;
    buf.truncate(size);
    release_spare(&mut buf);
    buf
}

/// The steps of a run that starts after `call`, one per reply: each reply is
/// what the call asked for by the step before reported, and the run ends at
/// the first step that finishes or fails.
pub open spec fn steps(call: Call, replies: Seq<Reply>, race: i32) -> Seq<Next>
    decreases replies.len(),
{
    if replies.len() == 0 {
        Seq::empty()
    } else {
        let n = next_spec(call, replies[0], race);
        match n {
            Next::Probe => seq![n] + steps(Call::Probe, replies.drop_first(), race),
            Next::Fill(_) => seq![n] + steps(Call::Fill, replies.drop_first(), race),
            _ => seq![n],
        }
    }
}

/// The replies of a run whose fill meets the size race once for each entry of
/// `sizes` (the probe reports that size, the fill fails with `race`), after
/// which a probe reports `size` and the fill writes `written` bytes.
pub open spec fn raced_replies(sizes: Seq<usize>, race: i32, size: usize, written: usize) -> Seq<
    Reply,
>
    decreases sizes.len(),
{
    if sizes.len() == 0 {
        seq![Reply::Size(size), Reply::Size(written)]
    } else {
        seq![Reply::Size(sizes[0]), Reply::Failed(Some(race))] + raced_replies(
            sizes.drop_first(),
            race,
            size,
            written,
        )
    }
}

/// How many of `steps` ask for a fill.
pub open spec fn fill_count(steps: Seq<Next>) -> nat
    decreases steps.len(),
{
    if steps.len() == 0 {
        0
    } else {
        (if steps[0] is Fill {
            1nat
        } else {
            0nat
        }) + fill_count(steps.drop_first())
    }
}

/// How many of `steps` ask for a new probe.
pub open spec fn reprobe_count(steps: Seq<Next>) -> nat
    decreases steps.len(),
{
    if steps.len() == 0 {
        0
    } else {
        (if steps[0] is Probe {
            1nat
        } else {
            0nat
        }) + reprobe_count(steps.drop_first())
    }
}

/// When the fill meets the size race N times before it succeeds, the run goes
/// through N + 1 probe-and-fill cycles (the first probe and N more) and ends
/// by handing back what the last fill wrote.
pub proof fn lemma_race_retries(sizes: Seq<usize>, race: i32, size: usize, written: usize)
    ensures
        fill_count(steps(Call::Probe, raced_replies(sizes, race, size, written), race))
            == sizes.len() + 1,
        reprobe_count(steps(Call::Probe, raced_replies(sizes, race, size, written), race))
            == sizes.len(),
        steps(Call::Probe, raced_replies(sizes, race, size, written), race).last()
            == Next::Finish(written),
    decreases sizes.len(),
{
    let replies = raced_replies(sizes, race, size, written);
    let run = steps(Call::Probe, replies, race);
    if sizes.len() == 0 {
        let tail = steps(Call::Fill, replies.drop_first(), race);
        assert(replies.drop_first().drop_first().len() == 0);
        assert(tail =~= seq![Next::Finish(written)]);
        assert(run =~= seq![Next::Fill(size), Next::Finish(written)]);
        assert(run.drop_first() =~= seq![Next::Finish(written)]);
        assert(run.drop_first().drop_first().len() == 0);
        assert(fill_count(run.drop_first()) == 0 + fill_count(run.drop_first().drop_first()));
        assert(reprobe_count(run.drop_first()) == 0 + reprobe_count(
            run.drop_first().drop_first(),
        ));
    } else {
        let rest = raced_replies(sizes.drop_first(), race, size, written);
        let inner = steps(Call::Probe, rest, race);
        lemma_race_retries(sizes.drop_first(), race, size, written);
        assert(replies.drop_first().drop_first() =~= rest);
        let mid = steps(Call::Fill, replies.drop_first(), race);
        assert(mid =~= seq![Next::Probe] + inner);
        assert(run =~= seq![Next::Fill(sizes[0]), Next::Probe] + inner);
        assert(run.drop_first() =~= seq![Next::Probe] + inner);
        assert(run.drop_first().drop_first() =~= inner);
        assert(inner.len() > 0);
        assert(fill_count(run.drop_first()) == 0 + fill_count(inner));
        assert(reprobe_count(run.drop_first()) == 1 + reprobe_count(inner));
    }
}

/// A failed probe ends the run with that failure: no fill is asked for.
pub proof fn lemma_probe_failure_ends(code: Option<i32>, race: i32)
    ensures
        next_spec(Call::Probe, Reply::Failed(code), race) == Next::Fail,
{
}

/// A fill that fails with any code other than the size-race code ends the run
/// with that failure, with no new probe.
pub proof fn lemma_fill_failure_ends(code: Option<i32>, race: i32)
    requires
        code != Some(race),
    ensures
        next_spec(Call::Fill, Reply::Failed(code), race) == Next::Fail,
{
}

/// A fill that writes no more than the probed size hands back exactly what it
/// wrote: the first `written` bytes of the buffer, and nothing more.
pub proof fn lemma_fill_result(probed: usize, buf: Seq<u8>, written: usize, race: i32)
    requires
        buf.len() == probed,
        written <= probed,
    ensures
        next_spec(Call::Fill, Reply::Size(written), race) == Next::Finish(written),
        filled(buf, written as nat).len() == written,
        filled(buf, written as nat) == buf.subrange(0, written as int),
{
}

} // verus!
