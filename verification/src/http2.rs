//! HTTP/2 frame policy: the values of the connection preface and the order
//! in which they go on the wire.

use vstd::prelude::*;

verus! {

/// Connection window that HTTP/2 starts with; a larger one is announced by
/// a WINDOW_UPDATE for the difference.
pub const DEFAULT_CONNECTION_WINDOW: u32 = 65535;

/// A SETTINGS parameter that a profile can carry a value for.
#[derive(Clone, Copy, Debug, PartialEq, Eq, Structural)]
pub enum SettingId {
    HeaderTableSize,
    EnablePush,
    MaxConcurrentStreams,
    InitialWindowSize,
    MaxHeaderListSize,
}

/// A pseudo-header of a request's HEADERS frame.
#[derive(Clone, Copy, Debug, PartialEq, Eq, Structural)]
pub enum PseudoHeader {
    Method,
    Scheme,
    Authority,
    Path,
}

/// Priority that a HEADERS frame carries.
#[derive(Clone, Copy, Debug, PartialEq, Eq, Structural)]
pub struct HeadersPriority {
    pub stream_dependency: u32,
    pub weight: u8,
    pub exclusive: bool,
}

/// What a profile sends on the HTTP/2 preface, and in which order.
#[derive(Clone, Debug)]
pub struct Http2FrameSettings {
    pub initial_stream_window_size: Option<u32>,
    pub initial_connection_window_size: Option<u32>,
    pub max_concurrent_streams: Option<u32>,
    pub max_header_list_size: Option<u32>,
    pub header_table_size: Option<u32>,
    pub enable_push: Option<bool>,
    /// The SETTINGS parameters to emit, in order.
    pub settings_order: Vec<SettingId>,
    /// The order of the pseudo-headers in a HEADERS frame.
    pub headers_pseudo_order: Vec<PseudoHeader>,
    /// The priority of HEADERS frames, if they carry one.
    pub headers_priority: Option<HeadersPriority>,
}

/// The frame settings as plain values.
#[verifier::ext_equal]
pub struct Http2FrameSettingsView {
    pub initial_stream_window_size: Option<u32>,
    pub initial_connection_window_size: Option<u32>,
    pub max_concurrent_streams: Option<u32>,
    pub max_header_list_size: Option<u32>,
    pub header_table_size: Option<u32>,
    pub enable_push: Option<bool>,
    pub settings_order: Seq<SettingId>,
    pub headers_pseudo_order: Seq<PseudoHeader>,
    pub headers_priority: Option<HeadersPriority>,
}

impl View for Http2FrameSettings {
    type V = Http2FrameSettingsView;

    open spec fn view(&self) -> Http2FrameSettingsView {
        Http2FrameSettingsView {
            initial_stream_window_size: self.initial_stream_window_size,
            initial_connection_window_size: self.initial_connection_window_size,
            max_concurrent_streams: self.max_concurrent_streams,
            max_header_list_size: self.max_header_list_size,
            header_table_size: self.header_table_size,
            enable_push: self.enable_push,
            settings_order: self.settings_order@,
            headers_pseudo_order: self.headers_pseudo_order@,
            headers_priority: self.headers_priority,
        }
    }
}

impl Http2FrameSettingsView {
    /// The value that goes on the wire for a parameter, if the settings
    /// carry one. ENABLE_PUSH is 1 or 0.
    pub open spec fn value(self, id: SettingId) -> Option<u32> {
        match id {
            SettingId::HeaderTableSize => self.header_table_size,
            SettingId::EnablePush => match self.enable_push {
                Some(on) => Some(
                    if on {
                        1u32
                    } else {
                        0u32
                    },
                ),
                None => None,
            },
            SettingId::MaxConcurrentStreams => self.max_concurrent_streams,
            SettingId::InitialWindowSize => self.initial_stream_window_size,
            SettingId::MaxHeaderListSize => self.max_header_list_size,
        }
    }

    /// The SETTINGS parameters that go on the wire: those of
    /// `settings_order` that have a value, in that order, each with its
    /// value. A parameter without a value is left out, not sent as zero.
    pub open spec fn emitted(self) -> Seq<(SettingId, u32)> {
        emitted_of(self, self.settings_order)
    }

    /// The increment of the WINDOW_UPDATE that follows the preface: sent
    /// only for a connection window above the default, and then the
    /// difference.
    pub open spec fn window_update(self) -> Option<u32> {
        match self.initial_connection_window_size {
            Some(size) => if size > DEFAULT_CONNECTION_WINDOW {
                Some((size - DEFAULT_CONNECTION_WINDOW) as u32)
            } else {
                None
            },
            None => None,
        }
    }

    /// Whether `settings_order` names only parameters that have a value,
    /// and none twice.
    pub open spec fn order_is_valid(self) -> bool {
        valid_settings_order(self, self.settings_order)
    }

    /// Whether the pseudo-headers are ordered: each of the four once.
    pub open spec fn pseudo_order_is_valid(self) -> bool {
        valid_pseudo_order(self.headers_pseudo_order)
    }
}

/// The parameters of `order` that have a value in `settings`, in that
/// order, each with its value.
pub open spec fn emitted_of(settings: Http2FrameSettingsView, order: Seq<SettingId>) -> Seq<
    (SettingId, u32),
>
    decreases order.len(),
{
    if order.len() == 0 {
        Seq::empty()
    } else {
        let front = emitted_of(settings, order.drop_last());
        match settings.value(order.last()) {
            Some(v) => front.push((order.last(), v)),
            None => front,
        }
    }
}

/// Whether an order of parameters names only parameters that have a value
/// in `settings`, and none twice.
pub open spec fn valid_settings_order(
    settings: Http2FrameSettingsView,
    order: Seq<SettingId>,
) -> bool {
    &&& forall|i: int| 0 <= i < order.len() ==> settings.value(#[trigger] order[i]) is Some
    &&& forall|i: int, j: int| 0 <= i < j < order.len() ==> order[i] != order[j]
}

/// Whether an order of pseudo-headers holds each of the four once.
pub open spec fn valid_pseudo_order(order: Seq<PseudoHeader>) -> bool {
    &&& order.len() == 4
    &&& order.contains(PseudoHeader::Method)
    &&& order.contains(PseudoHeader::Scheme)
    &&& order.contains(PseudoHeader::Authority)
    &&& order.contains(PseudoHeader::Path)
}

impl PseudoHeader {
    /// The name on the wire.
    pub open spec fn spec_name(self) -> Seq<char> {
        match self {
            PseudoHeader::Method => ":method"@,
            PseudoHeader::Scheme => ":scheme"@,
            PseudoHeader::Authority => ":authority"@,
            PseudoHeader::Path => ":path"@,
        }
    }

    /// The name on the wire.
    pub fn name(self) -> (r: &'static str)
        ensures
            r@ == self.spec_name(),
    {
        match self {
            PseudoHeader::Method => ":method",
            PseudoHeader::Scheme => ":scheme",
            PseudoHeader::Authority => ":authority",
            PseudoHeader::Path => ":path",
        }
    }
}

impl Http2FrameSettings {
    /// The value that goes on the wire for a parameter, if the settings
    /// carry one.
    pub fn value(&self, id: SettingId) -> (v: Option<u32>)
        ensures
            v == self@.value(id),
    {
        match id {
            SettingId::HeaderTableSize => self.header_table_size,
            SettingId::EnablePush => match self.enable_push {
                Some(on) => Some(
                    if on {
                        1u32
                    } else {
                        0u32
                    },
                ),
                None => None,
            },
            SettingId::MaxConcurrentStreams => self.max_concurrent_streams,
            SettingId::InitialWindowSize => self.initial_stream_window_size,
            SettingId::MaxHeaderListSize => self.max_header_list_size,
        }
    }

    /// The SETTINGS parameters to put on the wire, in order, each with its
    /// value.
    pub fn emitted_settings(&self) -> (out: Vec<(SettingId, u32)>)
        ensures
            out@ == self@.emitted(),
    {
        let mut out: Vec<(SettingId, u32)> = Vec::new();
        let mut i: usize = 0;
        assert(self.settings_order@.take(0) =~= Seq::empty());
        while i < self.settings_order.len()
            invariant
                i <= self.settings_order@.len(),
                out@ == emitted_of(self@, self.settings_order@.take(i as int)),
            decreases self.settings_order@.len() - i,
        {
            let id = self.settings_order[i];
            proof {
                let next = self.settings_order@.take(i + 1);
                assert(next.drop_last() =~= self.settings_order@.take(i as int));
                assert(next.last() == id);
            }
            match self.value(id) {
                Some(v) => {
                    out.push((id, v));
                },
                None => {},
            }
            i += 1;
        }
        assert(self.settings_order@.take(i as int) =~= self.settings_order@);
        out
    }

    /// The increment of the WINDOW_UPDATE to send after the preface, if one
    /// is to be sent.
    pub fn connection_window_update(&self) -> (delta: Option<u32>)
        ensures
            delta == self@.window_update(),
    {
        match self.initial_connection_window_size {
            Some(size) => if size > DEFAULT_CONNECTION_WINDOW {
                Some(size - DEFAULT_CONNECTION_WINDOW)
            } else {
                None
            },
            None => None,
        }
    }

    /// Whether an order of SETTINGS parameters can replace that of these
    /// settings: it names only parameters that have a value, none twice.
    pub fn accepts_settings_order(&self, order: &Vec<SettingId>) -> (ok: bool)
        ensures
            ok == valid_settings_order(self@, order@),
    {
        let mut i: usize = 0;
        while i < order.len()
            invariant
                i <= order@.len(),
                valid_settings_order(self@, order@.take(i as int)),
            decreases order@.len() - i,
        {
            let id = order[i];
            if self.value(id).is_none() {
                return false;
            }
            let mut j: usize = 0;
            while j < i
                invariant
                    j <= i < order@.len(),
                    id == order@[i as int],
                    forall|k: int| 0 <= k < j ==> order@[k] != id,
                decreases i - j,
            {
                if order[j] == id {
                    return false;
                }
                j += 1;
            }
            proof {
                let next = order@.take(i + 1);
                let prev = order@.take(i as int);
                assert forall|a: int, b: int| 0 <= a < b < next.len() implies next[a]
                    != next[b] by {
                    if b < i {
                        assert(prev[a] != prev[b]);
                    }
                }
                assert forall|a: int| 0 <= a < next.len() implies self@.value(
                    #[trigger] next[a],
                ) is Some by {
                    if a < i {
                        assert(self@.value(prev[a]) is Some);
                    }
                }
            }
            i += 1;
        }
        assert(order@.take(i as int) =~= order@);
        true
    }
}

/// Whether an order of pseudo-headers can be used: each of the four once.
pub fn accepts_pseudo_order(order: &Vec<PseudoHeader>) -> (ok: bool)
    ensures
        ok == valid_pseudo_order(order@),
{
    if order.len() != 4 {
        return false;
    }
    let mut method = false;
    let mut scheme = false;
    let mut authority = false;
    let mut path = false;
    let mut i: usize = 0;
    while i < 4
        invariant
            i <= 4,
            order@.len() == 4,
            method == order@.take(i as int).contains(PseudoHeader::Method),
            scheme == order@.take(i as int).contains(PseudoHeader::Scheme),
            authority == order@.take(i as int).contains(PseudoHeader::Authority),
            path == order@.take(i as int).contains(PseudoHeader::Path),
        decreases 4 - i,
    {
        proof {
            lemma_contains_step(order@, i as int, PseudoHeader::Method);
            lemma_contains_step(order@, i as int, PseudoHeader::Scheme);
            lemma_contains_step(order@, i as int, PseudoHeader::Authority);
            lemma_contains_step(order@, i as int, PseudoHeader::Path);
        }
        match order[i] {
            PseudoHeader::Method => {
                method = true;
            },
            PseudoHeader::Scheme => {
                scheme = true;
            },
            PseudoHeader::Authority => {
                authority = true;
            },
            PseudoHeader::Path => {
                path = true;
            },
        }
        i += 1;
    }
    assert(order@.take(4) =~= order@);
    method && scheme && authority && path
}

/// A prefix that is one longer holds what the shorter one holds, and the
/// element that came with it.
proof fn lemma_contains_step<T>(s: Seq<T>, i: int, x: T)
    requires
        0 <= i < s.len(),
    ensures
        s.take(i + 1).contains(x) <==> (s.take(i).contains(x) || s[i] == x),
{
    let shorter = s.take(i);
    let longer = s.take(i + 1);
    if shorter.contains(x) {
        let k = choose|k: int| 0 <= k < shorter.len() && shorter[k] == x;
        assert(longer[k] == x);
    }
    if s[i] == x {
        assert(longer[i] == x);
    }
    if longer.contains(x) {
        let k = choose|k: int| 0 <= k < longer.len() && longer[k] == x;
        if k < i {
            assert(shorter[k] == x);
        }
    }
}

/// When every parameter of the order has a value, each is emitted, in its
/// place.
pub proof fn lemma_emitted_of_valid(settings: Http2FrameSettingsView, order: Seq<SettingId>)
    requires
        valid_settings_order(settings, order),
    ensures
        emitted_of(settings, order).len() == order.len(),
        forall|i: int|
            0 <= i < order.len() ==> #[trigger] emitted_of(settings, order)[i] == (
                order[i],
                settings.value(order[i])->0,
            ),
    decreases order.len(),
{
    if order.len() > 0 {
        let front = order.drop_last();
        assert forall|i: int| 0 <= i < front.len() implies settings.value(
            #[trigger] front[i],
        ) is Some by {
            assert(front[i] == order[i]);
        }
        assert forall|i: int, j: int| 0 <= i < j < front.len() implies front[i] != front[j] by {
            assert(front[i] == order[i] && front[j] == order[j]);
        }
        lemma_emitted_of_valid(settings, front);
        assert(settings.value(order[order.len() - 1]) is Some);
    }
}

} // verus!
