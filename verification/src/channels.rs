//! Telling the channels that a peer opened apart.
use vstd::prelude::*;

use crate::channel::ChannelId;

verus! {

/// The peer opened no channel for video.
#[derive(Debug, Clone, Copy, PartialEq, Eq, Structural)]
pub struct NoVideoChannel;

impl NoVideoChannel {
    /// What the error says.
    pub fn to_text(&self) -> (r: String)
        ensures
            r@ == "peer opened no usable video DataChannel"@,
    {
        "peer opened no usable video DataChannel".to_owned()
    }
}

/// Channel `k` is the first that is not for input.
pub open spec fn first_video<C>(channels: Seq<(ChannelId, C)>, k: int) -> bool {
    &&& 0 <= k < channels.len()
    &&& channels[k].0 != ChannelId::Input
    &&& forall|i: int| 0 <= i < k ==> #[trigger] channels[i].0 == ChannelId::Input
}

/// Channel `k` is the last that is for input.
pub open spec fn last_input<C>(channels: Seq<(ChannelId, C)>, k: int) -> bool {
    &&& 0 <= k < channels.len()
    &&& channels[k].0 == ChannelId::Input
    &&& forall|i: int|
        k < i < channels.len() ==> #[trigger] channels[i].0 != ChannelId::Input
}

/// All channels are for input.
pub open spec fn only_input<C>(channels: Seq<(ChannelId, C)>) -> bool {
    forall|i: int|
        0 <= i < channels.len() ==> #[trigger] channels[i].0 == ChannelId::Input
}

/// No channel is for input.
pub open spec fn no_input<C>(channels: Seq<(ChannelId, C)>) -> bool {
    forall|i: int|
        0 <= i < channels.len() ==> #[trigger] channels[i].0 != ChannelId::Input
}

/// Pick the video channel and the input channel, if there is one, whatever the order in which they
/// were opened. Each channel comes with what the peer opened it for. The first channel that is not
/// for input carries the video; of several input channels the last counts.
pub fn classify_channels<C>(channels: Vec<(ChannelId, C)>) -> (r: Result<
    ((ChannelId, C), Option<(ChannelId, C)>),
    NoVideoChannel,
>)
    ensures
        r is Err <==> only_input(channels@),
        r matches Ok((video, input)) ==> {
            &&& exists|k: int| #[trigger] first_video(channels@, k) && video == channels@[k]
            &&& match input {
                Some(c) => exists|k: int| #[trigger] last_input(channels@, k) && c == channels@[k],
                None => no_input(channels@),
            }
        },
{
    let ghost all = channels@;
    let mut channels = channels;
    let mut video: Option<usize> = None;
    let mut input: Option<usize> = None;
    let mut i: usize = 0;
    while i < channels.len()
        invariant
            channels@ == all,
            i <= all.len(),
            match video {
                Some(k) => k < i && first_video(all, k as int),
                None => only_input(all.take(i as int)),
            },
            match input {
                Some(k) => k < i && last_input(all.take(i as int), k as int),
                None => no_input(all.take(i as int)),
            },
        decreases all.len() - i,
    {
        let ghost done = all.take(i as int);
        let ghost more = all.take(i + 1);
        assert(more =~= done.push(all[i as int]));
        if channels[i].0 == ChannelId::Input {
            input = Some(i);
            assert(last_input(more, i as int));
        } else if video.is_none() {
            video = Some(i);
            assert forall|k: int| 0 <= k < i implies #[trigger] all[k].0
                == ChannelId::Input by {
                assert(done[k] == all[k]);
            }
        }
        i = i + 1;
    }
    assert(all.take(i as int) =~= all);
    match (video, input) {
        (Some(v), Some(n)) => {
            if v < n {
                let c = channels.remove(n);
                let w = channels.remove(v);
                assert(first_video(all, v as int) && w == all[v as int]);
                assert(last_input(all, n as int) && c == all[n as int]);
                Ok((w, Some(c)))
            } else {
                let w = channels.remove(v);
                let c = channels.remove(n);
                assert(first_video(all, v as int) && w == all[v as int]);
                assert(last_input(all, n as int) && c == all[n as int]);
                Ok((w, Some(c)))
            }
        },
        (Some(v), None) => {
            let w = channels.remove(v);
            assert(first_video(all, v as int) && w == all[v as int]);
            Ok((w, None))
        },
        (None, _) => Err(NoVideoChannel),
    }
}

/// A peer that opens one video and one input channel gets them told apart in either order.
pub proof fn law_open_order_does_not_matter<C>(
    video: (ChannelId, C),
    input: (ChannelId, C),
    k: int,
    n: int,
)
    requires
        video.0 != ChannelId::Input,
        input.0 == ChannelId::Input,
    ensures
        first_video(seq![video, input], k) ==> seq![video, input][k] == video,
        last_input(seq![video, input], n) ==> seq![video, input][n] == input,
        first_video(seq![input, video], k) ==> seq![input, video][k] == video,
        last_input(seq![input, video], n) ==> seq![input, video][n] == input,
{
}

/// The video goes over the first channel that was opened for something else than input, whatever
/// that is, and there is only one such channel. A peer that opened none has no video.
pub proof fn law_video_takes_the_first_other_channel<C>(
    channels: Seq<(ChannelId, C)>,
    k: int,
    j: int,
)
    requires
        0 <= k < channels.len(),
        channels[k].0 != ChannelId::Input,
        forall|i: int| 0 <= i < k ==> #[trigger] channels[i].0 == ChannelId::Input,
    ensures
        first_video(channels, k),
        first_video(channels, j) ==> j == k,
        !only_input(channels),
{
}

/// Input comes over the last channel that was opened for it, and there is only one such channel. A
/// peer that opened none sends no input.
pub proof fn law_input_takes_the_last_input_channel<C>(
    channels: Seq<(ChannelId, C)>,
    k: int,
    j: int,
)
    requires
        0 <= k < channels.len(),
        channels[k].0 == ChannelId::Input,
        forall|i: int| k < i < channels.len() ==> #[trigger] channels[i].0 != ChannelId::Input,
    ensures
        last_input(channels, k),
        last_input(channels, j) ==> j == k,
        !no_input(channels),
{
}

/// Without a channel there is neither video nor input.
pub proof fn law_no_channels<C>(channels: Seq<(ChannelId, C)>, k: int)
    requires
        channels.len() == 0,
    ensures
        only_input(channels),
        no_input(channels),
        !first_video(channels, k),
        !last_input(channels, k),
{
}

} // verus!
