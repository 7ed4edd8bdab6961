use vstd::prelude::*;

verus! {

/// What a block of processing tells the host about the calls to come.
#[derive(Debug, Clone, Copy, PartialEq, Eq, Structural)]
pub enum ProcessStatus {
    /// Keep calling, whatever the output.
    Continue,
    /// Keep calling unless the output has settled to silence.
    ContinueIfNotQuiet,
    /// Keep calling for the tail only.
    Tail,
    /// Output is finished: calls may stop.
    Sleep,
}

/// The factor that the gain transform multiplies each sample by.
pub const GAIN: u32 = 2;

/// The status of every block: the output never settles by itself, so the host
/// keeps calling unless it hears silence; with no channel pair at the expected
/// port the answer is the same.
pub fn block_status(_has_channel_pair: bool) -> (r: ProcessStatus)
    ensures
        r == ProcessStatus::ContinueIfNotQuiet,
{
    ProcessStatus::ContinueIfNotQuiet
}

/// Runs each sample of a channel through `transform`, writing the result over
/// it: every sample is read before it is written, and written once.
pub fn process_in_place<S: Copy, F: Fn(S) -> S>(buf: &mut [S], transform: &F)
    requires
        forall|s: S| call_requires(*transform, (s,)),
    ensures
        final(buf)@.len() == old(buf)@.len(),
        forall|i: int|
            0 <= i < old(buf)@.len() ==> call_ensures(
                *transform,
                (old(buf)@[i],),
                #[trigger] final(buf)@[i],
            ),
{
    let ghost before = buf@;
    let mut i: usize = 0;
    while i < buf.len()
        invariant
            i <= buf@.len(),
            buf@.len() == before.len(),
            forall|s: S| call_requires(*transform, (s,)),
            forall|j: int| i <= j < before.len() ==> buf@[j] == before[j],
            forall|j: int|
                0 <= j < i ==> call_ensures(*transform, (before[j],), #[trigger] buf@[j]),
        decreases buf@.len() - i,
    {
        let x = buf[i];
        let y = transform(x);
        buf[i] = y;
        i += 1;
    }
}

/// Runs each sample of `input` through `transform` into the same frame of
/// `output`, for the frames that both hold; the frames of `output` past
/// `input` are left as they were.
pub fn process_separate<S: Copy, F: Fn(S) -> S>(input: &[S], output: &mut [S], transform: &F)
    requires
        forall|s: S| call_requires(*transform, (s,)),
    ensures
        final(output)@.len() == old(output)@.len(),
        forall|i: int|
            0 <= i < old(output)@.len() && i < input@.len() ==> call_ensures(
                *transform,
                (input@[i],),
                #[trigger] final(output)@[i],
            ),
        forall|i: int|
            input@.len() <= i < old(output)@.len() ==> #[trigger] final(output)@[i] == old(
                output,
            )@[i],
{
    let ghost before = output@;
    let n: usize = if input.len() < output.len() {
        input.len()
    } else {
        output.len()
    };
    let mut i: usize = 0;
    while i < n
        invariant
            i <= n,
            n <= input@.len(),
            n <= before.len(),
            n == input@.len() || n == before.len(),
            output@.len() == before.len(),
            forall|s: S| call_requires(*transform, (s,)),
            forall|j: int| i <= j < before.len() ==> output@[j] == before[j],
            forall|j: int|
                0 <= j < i ==> call_ensures(*transform, (input@[j],), #[trigger] output@[j]),
        decreases n - i,
    {
        let y = transform(input[i]);
        output[i] = y;
        i += 1;
    }
}

/// The storage of one channel of a block, as the host hands it over.
pub enum ChannelPair<'a, S> {
    /// An input with no matching output.
    InputOnly(&'a [S]),
    /// An output with no matching input.
    OutputOnly(&'a mut [S]),
    /// An input and an output in storage of their own.
    InputOutput(&'a [S], &'a mut [S]),
    /// An input and an output that share one buffer, holding the input.
    InPlace(&'a mut [S]),
}

/// Processes one channel: where it has both an input and an output, each
/// output sample becomes the transform of the input sample of its frame;
/// where it lacks either, nothing is written.
pub fn process_channel<'a, S: Copy, F: Fn(S) -> S>(pair: ChannelPair<'a, S>, transform: &F)
    requires
        forall|s: S| call_requires(*transform, (s,)),
    ensures
        match pair {
            ChannelPair::InputOnly(_) => true,
            ChannelPair::OutputOnly(out) => final(out)@ == out@,
            ChannelPair::InputOutput(input, out) => {
                &&& final(out)@.len() == out@.len()
                &&& forall|i: int|
                    0 <= i < out@.len() && i < input@.len() ==> call_ensures(
                        *transform,
                        (input@[i],),
                        #[trigger] final(out)@[i],
                    )
                &&& forall|i: int|
                    input@.len() <= i < out@.len() ==> #[trigger] final(out)@[i] == out@[i]
            },
            ChannelPair::InPlace(buf) => {
                &&& final(buf)@.len() == buf@.len()
                &&& forall|i: int|
                    0 <= i < buf@.len() ==> call_ensures(
                        *transform,
                        (buf@[i],),
                        #[trigger] final(buf)@[i],
                    )
            },
        },
{
    match pair {
        ChannelPair::InputOnly(_) => {},
        ChannelPair::OutputOnly(_) => {},
        ChannelPair::InputOutput(input, output) => process_separate(input, output, transform),
        ChannelPair::InPlace(buf) => process_in_place(buf, transform),
    }
}

} // verus!
