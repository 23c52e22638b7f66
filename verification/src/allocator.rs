//! Cross-channel rate allocation.
//!
//! The total send budget is handed out in strict priority order: Input, Control, Clipboard and
//! Audio take fixed floors, Video takes the bulk up to a cap, File takes what is left. When the
//! total is short, channels low in the order get nothing.
use vstd::prelude::*;

use crate::bitrate::Bitrate;
use crate::channel::ChannelId;

verus! {

/// Floors, reserves and the video operating range of a [`RateAllocator`].
#[derive(Debug, Clone, Copy, PartialEq, Eq, Structural)]
pub struct AllocatorConfig {
    /// Floor of the Input channel, served first.
    pub input_reserve: Bitrate,
    /// Floor of the Control channel.
    pub control_reserve: Bitrate,
    /// Floor of the Clipboard channel.
    pub clipboard_reserve: Bitrate,
    /// Floor of the Audio channel, served before video.
    pub audio_min: Bitrate,
    /// The least rate at which video is of use. When less is left, video gets all of it.
    pub video_min: Bitrate,
    /// The most that video may take; the surplus goes to the File channel.
    pub video_max: Bitrate,
}

impl Default for AllocatorConfig {
    fn default() -> (r: Self)
        ensures
            r.input_reserve == Bitrate(32_000),
            r.control_reserve == Bitrate(32_000),
            r.clipboard_reserve == Bitrate(32_000),
            r.audio_min == Bitrate(96_000),
            r.video_min == Bitrate(200_000),
            r.video_max == Bitrate(20_000_000),
    {
        AllocatorConfig {
            input_reserve: Bitrate::from_kbps(32),
            control_reserve: Bitrate::from_kbps(32),
            clipboard_reserve: Bitrate::from_kbps(32),
            audio_min: Bitrate::from_kbps(96),
            video_min: Bitrate::from_kbps(200),
            video_max: Bitrate::from_mbps(20),
        }
    }
}

/// The share of each channel, and the total that was divided.
#[derive(Debug, Clone, Copy, PartialEq, Eq, Structural)]
pub struct ChannelAllocation {
    /// Share of the Input channel.
    pub input: Bitrate,
    /// Share of the Control channel.
    pub control: Bitrate,
    /// Share of the Clipboard channel.
    pub clipboard: Bitrate,
    /// Share of the Audio channel.
    pub audio: Bitrate,
    /// Share of the Video channel.
    pub video: Bitrate,
    /// Share of the File channel.
    pub file: Bitrate,
    /// The budget that was divided.
    pub total: Bitrate,
}

/// What a channel that wants `want` gets when `left` is left.
pub open spec fn share(want: int, left: int) -> int {
    if want <= left {
        want
    } else {
        left
    }
}

/// What is left of `total` once `wanted` has been asked for ahead.
pub open spec fn left(total: int, wanted: int) -> int {
    if wanted <= total {
        total - wanted
    } else {
        0
    }
}

impl ChannelAllocation {
    /// The share of one channel.
    pub open spec fn of(self, channel: ChannelId) -> Bitrate {
        match channel {
            ChannelId::Input => self.input,
            ChannelId::Control => self.control,
            ChannelId::Clipboard => self.clipboard,
            ChannelId::Audio => self.audio,
            ChannelId::Video => self.video,
            ChannelId::File => self.file,
        }
    }

    /// The exact sum of the six shares.
    pub open spec fn total_of_shares(self) -> int {
        self.input.0 + self.control.0 + self.clipboard.0 + self.audio.0 + self.video.0
            + self.file.0
    }

    /// Look up the share of `channel`.
    pub fn get(&self, channel: ChannelId) -> (r: Bitrate)
        ensures
            r == self.of(channel),
    {
        match channel {
            ChannelId::Input => self.input,
            ChannelId::Control => self.control,
            ChannelId::Clipboard => self.clipboard,
            ChannelId::Audio => self.audio,
            ChannelId::Video => self.video,
            ChannelId::File => self.file,
        }
    }

    /// The sum of the six shares, saturating.
    pub fn sum(&self) -> (r: Bitrate)
        ensures
            r == Bitrate(crate::bitrate::saturated(self.total_of_shares())),
    {
        self.input.saturating_add(self.control).saturating_add(self.clipboard).saturating_add(
            self.audio,
        ).saturating_add(self.video).saturating_add(self.file)
    }

    /// The share of the Input channel.
    pub fn input(&self) -> (r: Bitrate)
        ensures
            r == self.input,
    {
        self.input
    }

    /// The share of the Control channel.
    pub fn control(&self) -> (r: Bitrate)
        ensures
            r == self.control,
    {
        self.control
    }

    /// The share of the Clipboard channel.
    pub fn clipboard(&self) -> (r: Bitrate)
        ensures
            r == self.clipboard,
    {
        self.clipboard
    }

    /// The share of the Audio channel.
    pub fn audio(&self) -> (r: Bitrate)
        ensures
            r == self.audio,
    {
        self.audio
    }

    /// The share of the Video channel.
    pub fn video(&self) -> (r: Bitrate)
        ensures
            r == self.video,
    {
        self.video
    }

    /// The share of the File channel.
    pub fn file(&self) -> (r: Bitrate)
        ensures
            r == self.file,
    {
        self.file
    }
}

/// Divides a total send budget among the channels.
#[derive(Debug, Clone, Copy)]
pub struct RateAllocator {
    config: AllocatorConfig,
}

impl View for RateAllocator {
    type V = AllocatorConfig;

    closed spec fn view(&self) -> AllocatorConfig {
        self.config
    }
}

/// `a` divides `total` as configuration `c` asks: each channel takes its want, or as much of it
/// as the wants of the channels ahead of it left, and File takes the rest.
pub open spec fn divides(c: AllocatorConfig, total: Bitrate, a: ChannelAllocation) -> bool {
    let t = total.0 as int;
    let ahead_of_control = c.input_reserve.0 as int;
    let ahead_of_clipboard = ahead_of_control + c.control_reserve.0;
    let ahead_of_audio = ahead_of_clipboard + c.clipboard_reserve.0;
    let ahead_of_video = ahead_of_audio + c.audio_min.0;
    let ahead_of_file = ahead_of_video + c.video_max.0;
    &&& a.total == total
    &&& a.input.0 == share(c.input_reserve.0 as int, t)
    &&& a.control.0 == share(c.control_reserve.0 as int, left(t, ahead_of_control))
    &&& a.clipboard.0 == share(c.clipboard_reserve.0 as int, left(t, ahead_of_clipboard))
    &&& a.audio.0 == share(c.audio_min.0 as int, left(t, ahead_of_audio))
    &&& a.video.0 == share(c.video_max.0 as int, left(t, ahead_of_video))
    &&& a.file.0 == left(t, ahead_of_file)
}

impl RateAllocator {
    /// An allocator with the given configuration.
    pub fn new(config: AllocatorConfig) -> (r: Self)
        ensures
            r@ == config,
    {
        RateAllocator { config }
    }

    /// Divide `total` among the channels in priority order.
    pub fn allocate(&self, total: Bitrate) -> (r: ChannelAllocation)
        ensures
            divides(self@, total, r),
    {
        let c = &self.config;
        let mut remaining = total;

        let input = c.input_reserve.clamp(Bitrate::zero(), remaining);
        remaining = remaining.saturating_sub(input);

        let control = c.control_reserve.clamp(Bitrate::zero(), remaining);
        remaining = remaining.saturating_sub(control);

        let clipboard = c.clipboard_reserve.clamp(Bitrate::zero(), remaining);
        remaining = remaining.saturating_sub(clipboard);

        let audio = c.audio_min.clamp(Bitrate::zero(), remaining);
        remaining = remaining.saturating_sub(audio);

        let video = remaining.clamp(Bitrate::zero(), c.video_max);
        remaining = remaining.saturating_sub(video);

        ChannelAllocation { input, control, clipboard, audio, video, file: remaining, total }
    }
}

/// An allocation never hands out more than the total: the shares add up to exactly the total,
/// so no share exceeds it and the saturating sum is the total itself.
pub proof fn law_shares_add_up_to_total(
    c: AllocatorConfig,
    total: Bitrate,
    a: ChannelAllocation,
    channel: ChannelId,
)
    requires
        divides(c, total, a),
    ensures
        a.total_of_shares() == total.0,
        crate::bitrate::saturated(a.total_of_shares()) == a.total.0,
        a.of(channel).0 <= total.0,
{
}

/// Strict priority: a channel that does not get its full want leaves nothing to any channel
/// below it. File gets something only when every other channel has its full want, so it never
/// starves video.
pub proof fn law_strict_priority(c: AllocatorConfig, total: Bitrate, a: ChannelAllocation)
    requires
        divides(c, total, a),
    ensures
        a.input.0 < c.input_reserve.0 ==> a.control.0 == 0 && a.clipboard.0 == 0 && a.audio.0 == 0
            && a.video.0 == 0 && a.file.0 == 0,
        a.control.0 < c.control_reserve.0 ==> a.clipboard.0 == 0 && a.audio.0 == 0 && a.video.0
            == 0 && a.file.0 == 0,
        a.clipboard.0 < c.clipboard_reserve.0 ==> a.audio.0 == 0 && a.video.0 == 0 && a.file.0
            == 0,
        a.audio.0 < c.audio_min.0 ==> a.video.0 == 0 && a.file.0 == 0,
        a.video.0 < c.video_max.0 ==> a.file.0 == 0,
{
}

/// No channel but File ever gets more than it wants; in particular video stays within its cap.
pub proof fn law_wants_are_caps(c: AllocatorConfig, total: Bitrate, a: ChannelAllocation)
    requires
        divides(c, total, a),
    ensures
        a.input.0 <= c.input_reserve.0,
        a.control.0 <= c.control_reserve.0,
        a.clipboard.0 <= c.clipboard_reserve.0,
        a.audio.0 <= c.audio_min.0,
        a.video.0 <= c.video_max.0,
{
}

/// The allocation is a function of configuration and total alone.
pub proof fn law_allocation_deterministic(
    c: AllocatorConfig,
    total: Bitrate,
    a: ChannelAllocation,
    b: ChannelAllocation,
)
    requires
        divides(c, total, a),
        divides(c, total, b),
    ensures
        a == b,
{
}

/// A larger total takes nothing away from any channel.
pub proof fn law_allocation_monotone(
    c: AllocatorConfig,
    small: Bitrate,
    large: Bitrate,
    a: ChannelAllocation,
    b: ChannelAllocation,
    channel: ChannelId,
)
    requires
        small.0 <= large.0,
        divides(c, small, a),
        divides(c, large, b),
    ensures
        a.of(channel).0 <= b.of(channel).0,
{
}

/// Every channel is given its own share.
pub proof fn law_shares_by_channel(a: ChannelAllocation)
    ensures
        a.of(ChannelId::Input) == a.input,
        a.of(ChannelId::Control) == a.control,
        a.of(ChannelId::Clipboard) == a.clipboard,
        a.of(ChannelId::Audio) == a.audio,
        a.of(ChannelId::Video) == a.video,
        a.of(ChannelId::File) == a.file,
        a.total_of_shares() == a.input.0 + a.control.0 + a.clipboard.0 + a.audio.0 + a.video.0
            + a.file.0,
{
}

/// A channel gets all that it wants as soon as the total covers it together with the channels ahead
/// of it: Input, Control, Clipboard, Audio and Video in this order. The rest is for File.
pub proof fn law_wants_are_met_in_order(c: AllocatorConfig, total: Bitrate, a: ChannelAllocation)
    requires
        divides(c, total, a),
    ensures
        total.0 >= c.input_reserve.0 ==> a.input == c.input_reserve,
        total.0 >= c.input_reserve.0 + c.control_reserve.0 ==> a.control == c.control_reserve,
        total.0 >= c.input_reserve.0 + c.control_reserve.0 + c.clipboard_reserve.0 ==> a.clipboard
            == c.clipboard_reserve,
        total.0 >= c.input_reserve.0 + c.control_reserve.0 + c.clipboard_reserve.0 + c.audio_min.0
            ==> a.audio == c.audio_min,
        total.0 >= c.input_reserve.0 + c.control_reserve.0 + c.clipboard_reserve.0 + c.audio_min.0
            + c.video_max.0 ==> a.video == c.video_max && a.file.0 == total.0 - c.input_reserve.0
            - c.control_reserve.0 - c.clipboard_reserve.0 - c.audio_min.0 - c.video_max.0,
        a.total == total,
{
}

} // verus!
