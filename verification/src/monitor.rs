//! Monitors and the fullscreen video modes they offer.
//!
//! A [`MonitorHandle`] is a snapshot of what the platform reports about one
//! monitor: its native identifier, name, resolution, position, refresh rate,
//! scale factor and the video modes it supports. Two handles denote the same
//! monitor when their native identifiers agree, and monitors are ordered by
//! that identifier.
//!
//! A [`VideoModeHandle`] is one fullscreen video mode of a monitor. Video
//! modes are ordered first by their monitor and then, within one monitor,
//! from the largest resolution down, then from the highest refresh rate down,
//! then from the highest bit depth down.
use crate::dpi::{PhysicalPosition, PhysicalSize};
use std::cmp::Ordering;
use vstd::prelude::*;
use vstd::std_specs::cmp::{PartialEqSpec, PartialOrdSpec};

verus! {

/// The properties of one fullscreen video mode, apart from its monitor.
#[derive(Debug, Clone, Copy, PartialEq, Eq, Structural, Hash)]
pub struct VideoModeInfo {
    /// The resolution of the mode.
    pub size: PhysicalSize<u32>,
    /// Bits available per pixel (colour, and alpha where counted).
    pub bit_depth: u16,
    /// The refresh rate in millihertz.
    pub refresh_rate_millihertz: u32,
}

impl VideoModeInfo {
    /// Builds the properties of a video mode.
    pub fn new(size: PhysicalSize<u32>, bit_depth: u16, refresh_rate_millihertz: u32) -> (info: Self)
        ensures
            info.size == size,
            info.bit_depth == bit_depth,
            info.refresh_rate_millihertz == refresh_rate_millihertz,
    {
        VideoModeInfo { size, bit_depth, refresh_rate_millihertz }
    }
}

/// What a [`MonitorHandle`] holds, as mathematical values.
pub struct MonitorView {
    pub native_id: u64,
    pub name: Option<Seq<char>>,
    pub size: PhysicalSize<u32>,
    pub position: PhysicalPosition<i32>,
    pub refresh_rate_millihertz: Option<u32>,
    pub scale_factor_bits: u64,
    pub video_modes: Seq<VideoModeInfo>,
}

/// What a [`VideoModeHandle`] holds, as mathematical values.
pub struct VideoModeView {
    pub info: VideoModeInfo,
    pub monitor: MonitorView,
}

/// The view of an optional string.
pub open spec fn optional_text(s: Option<String>) -> Option<Seq<char>> {
    match s {
        Some(t) => Some(t@),
        None => None,
    }
}

/// Handle to a monitor.
///
/// Allows you to retrieve information about a given monitor.
#[derive(Debug)]
pub struct MonitorHandle {
    pub(crate) native_id: u64,
    pub(crate) name: Option<String>,
    pub(crate) size: PhysicalSize<u32>,
    pub(crate) position: PhysicalPosition<i32>,
    pub(crate) refresh_rate_millihertz: Option<u32>,
    pub(crate) scale_factor_bits: u64,
    pub(crate) video_modes: Vec<VideoModeInfo>,
}

impl View for MonitorHandle {
    type V = MonitorView;

    closed spec fn view(&self) -> MonitorView {
        MonitorView {
            native_id: self.native_id,
            name: optional_text(self.name),
            size: self.size,
            position: self.position,
            refresh_rate_millihertz: self.refresh_rate_millihertz,
            scale_factor_bits: self.scale_factor_bits,
            video_modes: self.video_modes@,
        }
    }
}

/// Describes a fullscreen video mode of a monitor.
///
/// Can be acquired with [`MonitorHandle::video_modes`].
#[derive(Debug)]
pub struct VideoModeHandle {
    pub(crate) info: VideoModeInfo,
    pub(crate) monitor: MonitorHandle,
}

impl View for VideoModeHandle {
    type V = VideoModeView;

    closed spec fn view(&self) -> VideoModeView {
        VideoModeView { info: self.info, monitor: self.monitor@ }
    }
}

// ---------------------------------------------------------------------------
// The orders, as mathematical functions.
// ---------------------------------------------------------------------------
/// How two identifiers compare.
pub open spec fn order_u64(a: u64, b: u64) -> Ordering {
    if a < b {
        Ordering::Less
    } else if a == b {
        Ordering::Equal
    } else {
        Ordering::Greater
    }
}

/// How two 32-bit quantities compare.
pub open spec fn order_u32(a: u32, b: u32) -> Ordering {
    if a < b {
        Ordering::Less
    } else if a == b {
        Ordering::Equal
    } else {
        Ordering::Greater
    }
}

/// How two 16-bit quantities compare.
pub open spec fn order_u16(a: u16, b: u16) -> Ordering {
    if a < b {
        Ordering::Less
    } else if a == b {
        Ordering::Equal
    } else {
        Ordering::Greater
    }
}

/// The first comparison, unless it finds the two equal; then the second.
pub open spec fn lexicographic(first: Ordering, second: Ordering) -> Ordering {
    match first {
        Ordering::Equal => second,
        _ => first,
    }
}

/// The opposite comparison.
pub open spec fn reversed(o: Ordering) -> Ordering {
    match o {
        Ordering::Less => Ordering::Greater,
        Ordering::Equal => Ordering::Equal,
        Ordering::Greater => Ordering::Less,
    }
}

/// Resolutions compare by width, then by height.
pub open spec fn size_order(a: PhysicalSize<u32>, b: PhysicalSize<u32>) -> Ordering {
    lexicographic(order_u32(a.width, b.width), order_u32(a.height, b.height))
}

/// Monitors compare by their native identifiers.
pub open spec fn monitor_order(a: MonitorView, b: MonitorView) -> Ordering {
    order_u64(a.native_id, b.native_id)
}

/// Two monitor views denote the same monitor.
pub open spec fn same_monitor(a: MonitorView, b: MonitorView) -> bool {
    a.native_id == b.native_id
}

/// How the properties of two video modes compare, largest first: by
/// resolution, then refresh rate, then bit depth, each from the highest down.
pub open spec fn mode_info_order(a: VideoModeInfo, b: VideoModeInfo) -> Ordering {
    reversed(
        lexicographic(
            size_order(a.size, b.size),
            lexicographic(
                order_u32(a.refresh_rate_millihertz, b.refresh_rate_millihertz),
                order_u16(a.bit_depth, b.bit_depth),
            ),
        ),
    )
}

/// Video modes compare by monitor first, then by their properties.
pub open spec fn video_mode_order(a: VideoModeView, b: VideoModeView) -> Ordering {
    lexicographic(monitor_order(a.monitor, b.monitor), mode_info_order(a.info, b.info))
}

/// Two video mode views denote the same mode of the same monitor.
pub open spec fn same_video_mode(a: VideoModeView, b: VideoModeView) -> bool {
    a.info == b.info && same_monitor(a.monitor, b.monitor)
}

// ---------------------------------------------------------------------------
// Executable comparisons.
// ---------------------------------------------------------------------------
fn compare_u64(a: u64, b: u64) -> (r: Ordering)
    ensures
        r == order_u64(a, b),
{
    if a < b {
        Ordering::Less
    } else if a == b {
        Ordering::Equal
    } else {
        Ordering::Greater
    }
}

fn compare_u32(a: u32, b: u32) -> (r: Ordering)
    ensures
        r == order_u32(a, b),
{
    if a < b {
        Ordering::Less
    } else if a == b {
        Ordering::Equal
    } else {
        Ordering::Greater
    }
}

fn compare_u16(a: u16, b: u16) -> (r: Ordering)
    ensures
        r == order_u16(a, b),
{
    if a < b {
        Ordering::Less
    } else if a == b {
        Ordering::Equal
    } else {
        Ordering::Greater
    }
}

fn chain(first: Ordering, second: Ordering) -> (r: Ordering)
    ensures
        r == lexicographic(first, second),
{
    match first {
        Ordering::Equal => second,
        _ => first,
    }
}

fn reverse(o: Ordering) -> (r: Ordering)
    ensures
        r == reversed(o),
{
    match o {
        Ordering::Less => Ordering::Greater,
        Ordering::Equal => Ordering::Equal,
        Ordering::Greater => Ordering::Less,
    }
}

// ---------------------------------------------------------------------------
// MonitorHandle
// ---------------------------------------------------------------------------
impl MonitorHandle {
    /// Builds a handle from what the platform reports about a monitor.
    pub fn new(
        native_id: u64,
        name: Option<String>,
        size: PhysicalSize<u32>,
        position: PhysicalPosition<i32>,
        refresh_rate_millihertz: Option<u32>,
        scale_factor_bits: u64,
        video_modes: Vec<VideoModeInfo>,
    ) -> (m: Self)
        ensures
            m@ == (MonitorView {
                native_id,
                name: optional_text(name),
                size,
                position,
                refresh_rate_millihertz,
                scale_factor_bits,
                video_modes: video_modes@,
            }),
            match name {
                Some(t) => m@.name == Some(t@),
                None => m@.name is None,
            },
    {
        MonitorHandle {
            native_id,
            name,
            size,
            position,
            refresh_rate_millihertz,
            scale_factor_bits,
            video_modes,
        }
    }

    /// The platform's identifier of this monitor.
    pub fn native_id(&self) -> (id: u64)
        ensures
            id == self@.native_id,
    {
        self.native_id
    }

    /// Returns a human-readable name of the monitor.
    ///
    /// Returns `None` if the monitor doesn't exist anymore.
    pub fn name(&self) -> (name: Option<String>)
        ensures
            optional_text(name) == self@.name,
            match name {
                Some(t) => self@.name == Some(t@),
                None => self@.name is None,
            },
    {
        match &self.name {
            Some(s) => Some(s.clone()),
            None => None,
        }
    }

    /// Returns the monitor's resolution.
    pub fn size(&self) -> (size: PhysicalSize<u32>)
        ensures
            size == self@.size,
    {
        self.size
    }

    /// Returns the top-left corner position of the monitor relative to the
    /// larger full screen area.
    pub fn position(&self) -> (position: PhysicalPosition<i32>)
        ensures
            position == self@.position,
    {
        self.position
    }

    /// The monitor refresh rate used by the system.
    ///
    /// `Some` on success, `None` on failure, which usually happens when the
    /// monitor the window is on is removed.
    pub fn refresh_rate_millihertz(&self) -> (rate: Option<u32>)
        ensures
            rate == self@.refresh_rate_millihertz,
    {
        self.refresh_rate_millihertz
    }

    /// The bit pattern of the monitor's scale factor, an IEEE 754 double.
    pub fn scale_factor_bits(&self) -> (bits: u64)
        ensures
            bits == self@.scale_factor_bits,
    {
        self.scale_factor_bits
    }

    /// Returns all fullscreen video modes supported by this monitor, in the
    /// order the platform listed them; each reports this monitor.
    pub fn video_modes(&self) -> (modes: Vec<VideoModeHandle>)
        ensures
            modes.len() == self@.video_modes.len(),
            forall|i: int|
                0 <= i < modes.len() ==> #[trigger] modes[i]@ == (VideoModeView {
                    info: self@.video_modes[i],
                    monitor: self@,
                }),
    {
        let mut modes: Vec<VideoModeHandle> = Vec::new();
        let mut i: usize = 0;
        while i < self.video_modes.len()
            invariant
                i <= self.video_modes.len(),
                modes.len() == i,
                forall|k: int|
                    0 <= k < i ==> #[trigger] modes[k]@ == (VideoModeView {
                        info: self@.video_modes[k],
                        monitor: self@,
                    }),
            decreases self.video_modes.len() - i,
        {
            let info = self.video_modes[i];
            let monitor = self.clone();
            modes.push(VideoModeHandle { info, monitor });
            i = i + 1;
        }
        modes
    }

    /// Compares two monitors by their native identifiers.
    pub fn cmp(&self, other: &MonitorHandle) -> (r: Ordering)
        ensures
            r == monitor_order(self@, other@),
            (r == Ordering::Less) <==> self@.native_id < other@.native_id,
            (r == Ordering::Equal) <==> self@.native_id == other@.native_id,
            (r == Ordering::Greater) <==> self@.native_id > other@.native_id,
    {
        compare_u64(self.native_id, other.native_id)
    }
}

impl Clone for MonitorHandle {
    fn clone(&self) -> (m: Self)
        ensures
            m@ == self@,
    {
        let name = match &self.name {
            Some(s) => Some(s.clone()),
            None => None,
        };
        let mut video_modes: Vec<VideoModeInfo> = Vec::new();
        let mut i: usize = 0;
        while i < self.video_modes.len()
            invariant
                i <= self.video_modes.len(),
                video_modes.len() == i,
                forall|k: int| 0 <= k < i ==> video_modes@[k] == self.video_modes@[k],
            decreases self.video_modes.len() - i,
        {
            video_modes.push(self.video_modes[i]);
            i = i + 1;
        }
        assert(video_modes@ =~= self.video_modes@);
        MonitorHandle {
            native_id: self.native_id,
            name,
            size: self.size,
            position: self.position,
            refresh_rate_millihertz: self.refresh_rate_millihertz,
            scale_factor_bits: self.scale_factor_bits,
            video_modes,
        }
    }
}

impl PartialEq for MonitorHandle {
    fn eq(&self, other: &MonitorHandle) -> (r: bool) {
        self.native_id == other.native_id
    }
}

impl vstd::std_specs::cmp::PartialEqSpecImpl for MonitorHandle {
    open spec fn obeys_eq_spec() -> bool {
        true
    }

    open spec fn eq_spec(&self, other: &MonitorHandle) -> bool {
        same_monitor(self@, other@)
    }
}

impl Eq for MonitorHandle {

}

impl PartialOrd for MonitorHandle {
    fn partial_cmp(&self, other: &MonitorHandle) -> (r: Option<Ordering>) {
        Some(self.cmp(other))
    }
}

impl vstd::std_specs::cmp::PartialOrdSpecImpl for MonitorHandle {
    open spec fn obeys_partial_cmp_spec() -> bool {
        true
    }

    open spec fn partial_cmp_spec(&self, other: &MonitorHandle) -> Option<Ordering> {
        Some(monitor_order(self@, other@))
    }
}

// ---------------------------------------------------------------------------
// VideoModeHandle
// ---------------------------------------------------------------------------
impl VideoModeHandle {
    /// Returns the resolution of this video mode.
    pub fn size(&self) -> (size: PhysicalSize<u32>)
        ensures
            size == self@.info.size,
    {
        self.info.size
    }

    /// Returns the bit depth of this video mode, as in how many bits you have
    /// available per color. This is generally 24 bits or 32 bits on modern
    /// systems, depending on whether the alpha channel is counted or not.
    pub fn bit_depth(&self) -> (depth: u16)
        ensures
            depth == self@.info.bit_depth,
    {
        self.info.bit_depth
    }

    /// Returns the refresh rate of this video mode in mHz.
    pub fn refresh_rate_millihertz(&self) -> (rate: u32)
        ensures
            rate == self@.info.refresh_rate_millihertz,
    {
        self.info.refresh_rate_millihertz
    }

    /// Returns the properties of this video mode apart from its monitor.
    pub fn info(&self) -> (info: VideoModeInfo)
        ensures
            info == self@.info,
    {
        self.info
    }

    /// Returns the monitor that this video mode is valid for. Each monitor has
    /// a separate set of valid video modes.
    pub fn monitor(&self) -> (monitor: MonitorHandle)
        ensures
            monitor@ == self@.monitor,
    {
        self.monitor.clone()
    }

    /// Compares two video modes: by monitor first; within one monitor the
    /// larger resolution comes first, then the higher refresh rate, then the
    /// higher bit depth.
    pub fn cmp(&self, other: &VideoModeHandle) -> (r: Ordering)
        ensures
            r == video_mode_order(self@, other@),
            self@.monitor.native_id != other@.monitor.native_id ==> ((r == Ordering::Less)
                <==> self@.monitor.native_id < other@.monitor.native_id),
            (r == Ordering::Equal) <==> (self@.info == other@.info && self@.monitor.native_id
                == other@.monitor.native_id),
    {
        let by_monitor = self.monitor.cmp(&other.monitor);
        let by_size = chain(
            compare_u32(self.info.size.width, other.info.size.width),
            compare_u32(self.info.size.height, other.info.size.height),
        );
        let by_rest = chain(
            compare_u32(self.info.refresh_rate_millihertz, other.info.refresh_rate_millihertz),
            compare_u16(self.info.bit_depth, other.info.bit_depth),
        );
        chain(by_monitor, reverse(chain(by_size, by_rest)))
    }
}

impl Clone for VideoModeHandle {
    fn clone(&self) -> (m: Self)
        ensures
            m@ == self@,
    {
        VideoModeHandle { info: self.info, monitor: self.monitor.clone() }
    }
}

impl PartialEq for VideoModeHandle {
    fn eq(&self, other: &VideoModeHandle) -> (r: bool) {
        self.info == other.info && self.monitor.native_id == other.monitor.native_id
    }
}

impl vstd::std_specs::cmp::PartialEqSpecImpl for VideoModeHandle {
    open spec fn obeys_eq_spec() -> bool {
        true
    }

    open spec fn eq_spec(&self, other: &VideoModeHandle) -> bool {
        same_video_mode(self@, other@)
    }
}

impl Eq for VideoModeHandle {

}

impl PartialOrd for VideoModeHandle {
    fn partial_cmp(&self, other: &VideoModeHandle) -> (r: Option<Ordering>) {
        Some(self.cmp(other))
    }
}

impl vstd::std_specs::cmp::PartialOrdSpecImpl for VideoModeHandle {
    open spec fn obeys_partial_cmp_spec() -> bool {
        true
    }

    open spec fn partial_cmp_spec(&self, other: &VideoModeHandle) -> Option<Ordering> {
        Some(video_mode_order(self@, other@))
    }
}

// ---------------------------------------------------------------------------
// Laws of the orders.
// ---------------------------------------------------------------------------
/// Comparing two video modes the other way round gives the opposite result.
pub proof fn lemma_video_mode_order_antisymmetric(a: VideoModeView, b: VideoModeView)
    ensures
        video_mode_order(a, b) == reversed(video_mode_order(b, a)),
{
}

/// Two video modes compare equal exactly when they have the same
/// properties and belong to monitors with the same native identifier.
pub proof fn lemma_video_mode_order_equal(a: VideoModeView, b: VideoModeView)
    ensures
        (video_mode_order(a, b) == Ordering::Equal) <==> (a.info == b.info
            && a.monitor.native_id == b.monitor.native_id),
        same_video_mode(a, b) <==> (a.info == b.info && a.monitor.native_id
            == b.monitor.native_id),
{
    if video_mode_order(a, b) == Ordering::Equal {
        assert(a.info.size == b.info.size);
    }
}

/// If one video mode comes before a second, and the second before a third,
/// the first comes before the third.
pub proof fn lemma_video_mode_order_transitive(a: VideoModeView, b: VideoModeView, c: VideoModeView)
    requires
        video_mode_order(a, b) == Ordering::Less,
        video_mode_order(b, c) == Ordering::Less,
    ensures
        video_mode_order(a, c) == Ordering::Less,
{
}

/// Video modes of different monitors are ordered as the native identifiers
/// of their monitors are; within one monitor a mode with a larger width comes
/// first, then, at equal width, the larger height, then, at equal
/// resolution, the higher refresh rate, and then the higher bit depth.
pub proof fn lemma_video_mode_order_priorities(a: VideoModeView, b: VideoModeView)
    ensures
        a.monitor.native_id < b.monitor.native_id ==> video_mode_order(a, b) == Ordering::Less,
        a.monitor.native_id > b.monitor.native_id ==> video_mode_order(a, b)
            == Ordering::Greater,
        a.monitor.native_id == b.monitor.native_id && a.info.size.width > b.info.size.width
            ==> video_mode_order(a, b) == Ordering::Less,
        a.monitor.native_id == b.monitor.native_id && a.info.size.width == b.info.size.width
            && a.info.size.height > b.info.size.height ==> video_mode_order(a, b)
            == Ordering::Less,
        a.monitor.native_id == b.monitor.native_id && a.info.size == b.info.size
            && a.info.refresh_rate_millihertz > b.info.refresh_rate_millihertz
            ==> video_mode_order(a, b) == Ordering::Less,
        a.monitor.native_id == b.monitor.native_id && a.info.size == b.info.size
            && a.info.refresh_rate_millihertz == b.info.refresh_rate_millihertz
            && a.info.bit_depth > b.info.bit_depth ==> video_mode_order(a, b) == Ordering::Less,
{
}

/// A present name is kept whole, character for character, and an absent
/// one stays absent.
pub proof fn lemma_name_kept_whole(t: String)
    ensures
        optional_text(Some(t)) == Some(t@),
        optional_text(None) is None,
{
}

/// Monitors compare as their native identifiers do as numbers, and are the
/// same monitor exactly when the identifiers are equal.
pub proof fn lemma_monitor_order_follows_identifiers(a: MonitorView, b: MonitorView)
    ensures
        (monitor_order(a, b) == Ordering::Less) <==> a.native_id < b.native_id,
        (monitor_order(a, b) == Ordering::Equal) <==> a.native_id == b.native_id,
        (monitor_order(a, b) == Ordering::Greater) <==> a.native_id > b.native_id,
        same_monitor(a, b) <==> a.native_id == b.native_id,
{
}

/// `==` and `partial_cmp` on monitor handles follow the native identifiers:
/// equal exactly when the identifiers are equal, less exactly when the first
/// identifier is smaller.
pub proof fn lemma_monitor_handle_comparisons_follow_identifiers(x: MonitorHandle, y: MonitorHandle)
    ensures
        x.eq_spec(&y) <==> x@.native_id == y@.native_id,
        (x.partial_cmp_spec(&y) == Some(Ordering::Less)) <==> x@.native_id < y@.native_id,
        (x.partial_cmp_spec(&y) == Some(Ordering::Equal)) <==> x@.native_id == y@.native_id,
        (x.partial_cmp_spec(&y) == Some(Ordering::Greater)) <==> x@.native_id > y@.native_id,
{
}

/// `==` on video mode handles holds exactly when the properties agree and
/// the monitors have the same native identifier.
pub proof fn lemma_video_mode_handle_equality(x: VideoModeHandle, y: VideoModeHandle)
    ensures
        x.eq_spec(&y) <==> (x@.info == y@.info && x@.monitor.native_id == y@.monitor.native_id),
        (x.partial_cmp_spec(&y) == Some(Ordering::Equal)) <==> (x@.info == y@.info
            && x@.monitor.native_id == y@.monitor.native_id),
{
    lemma_video_mode_order_equal(x@, y@);
}

/// Two video modes of one monitor compare by their properties alone.
pub proof fn lemma_modes_of_one_monitor_compare_by_info(a: VideoModeView, b: VideoModeView)
    requires
        a.monitor.native_id == b.monitor.native_id,
    ensures
        video_mode_order(a, b) == mode_info_order(a.info, b.info),
{
}

/// The comparison of video modes is a total order that agrees with their
/// equality, in the sense of vstd's laws for `PartialOrd`.
pub proof fn lemma_video_mode_handle_obeys_order_laws()
    ensures
        vstd::laws_cmp::obeys_partial_cmp_spec_properties::<VideoModeHandle>(),
        vstd::laws_cmp::obeys_cmp_partial_ord::<VideoModeHandle>(),
{
    reveal(vstd::laws_cmp::obeys_partial_cmp_spec_properties);
    reveal(vstd::laws_cmp::obeys_cmp_partial_ord);
    reveal(vstd::laws_eq::obeys_eq_spec_properties);
    assert forall|x: VideoModeHandle, y: VideoModeHandle|
        x.partial_cmp_spec(&y) == Some(Ordering::Equal) <==> x.eq_spec(&y) by {
        lemma_video_mode_order_equal(x@, y@);
    }
    assert forall|x: VideoModeHandle, y: VideoModeHandle|
        x.partial_cmp_spec(&y) == Some(Ordering::Less) <==> y.partial_cmp_spec(&x) == Some(
            Ordering::Greater,
        ) by {
        lemma_video_mode_order_antisymmetric(x@, y@);
    }
    assert forall|x: VideoModeHandle, y: VideoModeHandle, z: VideoModeHandle|
        x.partial_cmp_spec(&y) == Some(Ordering::Less) && #[trigger] y.partial_cmp_spec(&z) == Some(
            Ordering::Less,
        ) implies #[trigger] x.partial_cmp_spec(&z) == Some(Ordering::Less) by {
        lemma_video_mode_order_transitive(x@, y@, z@);
    }
    assert forall|x: VideoModeHandle, y: VideoModeHandle, z: VideoModeHandle|
        x.partial_cmp_spec(&y) == Some(Ordering::Greater) && #[trigger] y.partial_cmp_spec(&z)
            == Some(Ordering::Greater) implies #[trigger] x.partial_cmp_spec(&z) == Some(
        Ordering::Greater,
    ) by {
        lemma_video_mode_order_antisymmetric(x@, y@);
        lemma_video_mode_order_antisymmetric(y@, z@);
        lemma_video_mode_order_antisymmetric(x@, z@);
        lemma_video_mode_order_transitive(z@, y@, x@);
    }
}

/// The comparison of monitors is a total order that agrees with their
/// equality, in the sense of vstd's laws for `PartialOrd`.
pub proof fn lemma_monitor_handle_obeys_order_laws()
    ensures
        vstd::laws_cmp::obeys_partial_cmp_spec_properties::<MonitorHandle>(),
        vstd::laws_cmp::obeys_cmp_partial_ord::<MonitorHandle>(),
{
    reveal(vstd::laws_cmp::obeys_partial_cmp_spec_properties);
    reveal(vstd::laws_cmp::obeys_cmp_partial_ord);
    reveal(vstd::laws_eq::obeys_eq_spec_properties);
}

} // verus!
