//! The profile registry: from the name of a browser build to its TLS
//! parameters, its HTTP/2 preface and its default headers.
//!
//! Each build belongs to a family. The family gives the TLS template; the
//! build gives the values of the HTTP/2 preface and the default headers.
//! The caller's options are applied on top.

pub mod chrome;
pub mod firefox;
pub mod okhttp;
pub mod safari;

use crate::headers::all_plain;
use crate::headers::ascii_bytes;
use crate::headers::distinct_names;
use crate::headers::entries_after_all;
use crate::headers::has_name;
use crate::headers::lemma_insert_twice_is_once;
use crate::headers::lemma_inserted_headers_are_present;
use crate::headers::lemma_new_headers_are_appended;
use crate::headers::values_of;
use crate::headers::written;
use crate::headers::header_entries;
use crate::headers::insert_headers;
use crate::headers::texts;
use crate::headers::HeaderMapFull;
use crate::headers::SURE_ROOM;
use crate::http2::valid_pseudo_order;
use crate::http2::valid_settings_order;
use crate::http2::accepts_pseudo_order;
use crate::http2::HeadersPriority;
use crate::http2::Http2FrameSettings;
use crate::http2::Http2FrameSettingsView;
use crate::http2::PseudoHeader;
use crate::http2::SettingId;
use crate::text::same_text;
use crate::tls::AlpnProtocol;
use crate::tls::TlsParameters;
use crate::tls::TlsParametersView;
use http::HeaderMap;
use http::HeaderValue;
use vstd::prelude::*;

verus! {

/// A browser build that can be impersonated.
#[allow(non_camel_case_types)]
#[derive(Clone, Copy, Debug, PartialEq, Eq, Structural)]
pub enum ImpersonationId {
    Chrome117,
    SafariIos17_4_1,
    OkHttp5,
    Firefox117,
}

/// A family of builds that share a TLS template.
#[derive(Clone, Copy, Debug, PartialEq, Eq, Structural)]
pub enum Family {
    Chrome,
    Safari,
    OkHttp,
    Firefox,
}

/// Why the registry returned no profile.
#[derive(Clone, Copy, Debug, PartialEq, Eq, Structural)]
pub enum ProfileError {
    /// No build has the name.
    UnknownId,
    /// An order given in the options cannot be used with the build: it
    /// names a SETTINGS parameter that the build has no value for, or one
    /// twice, or it does not hold each pseudo-header once.
    MalformedOverride,
}

/// What the caller chooses on top of a build.
#[derive(Clone, Debug)]
pub struct ImpersonateOptions {
    /// Advertise HTTP/1.1 only.
    pub skip_http2: bool,
    /// Leave the default headers out.
    pub skip_headers: bool,
    /// Send a GREASE encrypted-ClientHello extension.
    pub enable_ech_grease: bool,
    /// Accept certificates that do not verify.
    pub accept_invalid_certs: bool,
    /// Shuffle the extensions, or not, whatever the family does.
    pub permute_extensions: Option<bool>,
    /// The seed of the shuffle; without one each connection draws its own.
    pub permutation_seed: Option<u64>,
    /// An order of SETTINGS parameters in place of the build's.
    pub settings_order: Option<Vec<SettingId>>,
    /// An order of pseudo-headers in place of the family's.
    pub headers_pseudo_order: Option<Vec<PseudoHeader>>,
    /// A priority for HEADERS frames.
    pub headers_priority: Option<HeadersPriority>,
}

/// The options as plain values.
#[verifier::ext_equal]
pub struct ImpersonateOptionsView {
    pub skip_http2: bool,
    pub skip_headers: bool,
    pub enable_ech_grease: bool,
    pub accept_invalid_certs: bool,
    pub permute_extensions: Option<bool>,
    pub permutation_seed: Option<u64>,
    pub settings_order: Option<Seq<SettingId>>,
    pub headers_pseudo_order: Option<Seq<PseudoHeader>>,
    pub headers_priority: Option<HeadersPriority>,
}

impl View for ImpersonateOptions {
    type V = ImpersonateOptionsView;

    open spec fn view(&self) -> ImpersonateOptionsView {
        ImpersonateOptionsView {
            skip_http2: self.skip_http2,
            skip_headers: self.skip_headers,
            enable_ech_grease: self.enable_ech_grease,
            accept_invalid_certs: self.accept_invalid_certs,
            permute_extensions: self.permute_extensions,
            permutation_seed: self.permutation_seed,
            settings_order: match self.settings_order {
                Some(order) => Some(order@),
                None => None,
            },
            headers_pseudo_order: match self.headers_pseudo_order {
                Some(order) => Some(order@),
                None => None,
            },
            headers_priority: self.headers_priority,
        }
    }
}

/// The options that change nothing of a build.
pub open spec fn plain_options() -> ImpersonateOptionsView {
    ImpersonateOptionsView {
        skip_http2: false,
        skip_headers: false,
        enable_ech_grease: false,
        accept_invalid_certs: false,
        permute_extensions: None,
        permutation_seed: None,
        settings_order: None,
        headers_pseudo_order: None,
        headers_priority: None,
    }
}

impl Default for ImpersonateOptions {
    /// The options that change nothing of a build.
    fn default() -> (r: Self)
        ensures
            r@ == plain_options(),
    {
        ImpersonateOptions {
            skip_http2: false,
            skip_headers: false,
            enable_ech_grease: false,
            accept_invalid_certs: false,
            permute_extensions: None,
            permutation_seed: None,
            settings_order: None,
            headers_pseudo_order: None,
            headers_priority: None,
        }
    }
}

/// What the registry returns for a build: its TLS parameters, its HTTP/2
/// frame policy, and whether HTTP/2 and the default headers are left out.
#[derive(Clone, Debug)]
pub struct ImpersonationProfile {
    pub id: ImpersonationId,
    pub tls: TlsParameters,
    pub http2: Http2FrameSettings,
    pub skip_http2: bool,
    pub skip_headers: bool,
}

/// A profile as plain values.
#[verifier::ext_equal]
pub struct ImpersonationProfileView {
    pub id: ImpersonationId,
    pub tls: TlsParametersView,
    pub http2: Http2FrameSettingsView,
    pub skip_http2: bool,
    pub skip_headers: bool,
}

impl View for ImpersonationProfile {
    type V = ImpersonationProfileView;

    open spec fn view(&self) -> ImpersonationProfileView {
        ImpersonationProfileView {
            id: self.id,
            tls: self.tls@,
            http2: self.http2@,
            skip_http2: self.skip_http2,
            skip_headers: self.skip_headers,
        }
    }
}

impl ImpersonationId {
    /// The name of the build.
    pub open spec fn spec_name(self) -> Seq<char> {
        match self {
            ImpersonationId::Chrome117 => "chrome_117"@,
            ImpersonationId::SafariIos17_4_1 => "safari_ios_17.4.1"@,
            ImpersonationId::OkHttp5 => "okhttp_5"@,
            ImpersonationId::Firefox117 => "firefox_117"@,
        }
    }

    /// The build of a name.
    pub open spec fn spec_from_name(name: Seq<char>) -> Result<ImpersonationId, ProfileError> {
        if name == ImpersonationId::Chrome117.spec_name() {
            Ok(ImpersonationId::Chrome117)
        } else if name == ImpersonationId::SafariIos17_4_1.spec_name() {
            Ok(ImpersonationId::SafariIos17_4_1)
        } else if name == ImpersonationId::OkHttp5.spec_name() {
            Ok(ImpersonationId::OkHttp5)
        } else if name == ImpersonationId::Firefox117.spec_name() {
            Ok(ImpersonationId::Firefox117)
        } else {
            Err(ProfileError::UnknownId)
        }
    }

    /// The family of the build.
    pub open spec fn spec_family(self) -> Family {
        match self {
            ImpersonationId::Chrome117 => Family::Chrome,
            ImpersonationId::SafariIos17_4_1 => Family::Safari,
            ImpersonationId::OkHttp5 => Family::OkHttp,
            ImpersonationId::Firefox117 => Family::Firefox,
        }
    }

    /// The name of the build.
    pub fn name(self) -> (r: &'static str)
        ensures
            r@ == self.spec_name(),
    {
        match self {
            ImpersonationId::Chrome117 => "chrome_117",
            ImpersonationId::SafariIos17_4_1 => "safari_ios_17.4.1",
            ImpersonationId::OkHttp5 => "okhttp_5",
            ImpersonationId::Firefox117 => "firefox_117",
        }
    }

    /// The build of a name; `UnknownId` if no build has it.
    pub fn from_name(name: &str) -> (r: Result<ImpersonationId, ProfileError>)
        ensures
            r == ImpersonationId::spec_from_name(name@),
    {
        if same_text(name, ImpersonationId::Chrome117.name()) {
            Ok(ImpersonationId::Chrome117)
        } else if same_text(name, ImpersonationId::SafariIos17_4_1.name()) {
            Ok(ImpersonationId::SafariIos17_4_1)
        } else if same_text(name, ImpersonationId::OkHttp5.name()) {
            Ok(ImpersonationId::OkHttp5)
        } else if same_text(name, ImpersonationId::Firefox117.name()) {
            Ok(ImpersonationId::Firefox117)
        } else {
            Err(ProfileError::UnknownId)
        }
    }

    /// The family of the build.
    pub fn family(self) -> (r: Family)
        ensures
            r == self.spec_family(),
    {
        match self {
            ImpersonationId::Chrome117 => Family::Chrome,
            ImpersonationId::SafariIos17_4_1 => Family::Safari,
            ImpersonationId::OkHttp5 => Family::OkHttp,
            ImpersonationId::Firefox117 => Family::Firefox,
        }
    }
}

/// Each build is found again under its name.
pub proof fn lemma_name_round_trip(id: ImpersonationId)
    ensures
        ImpersonationId::spec_from_name(id.spec_name()) == Ok::<ImpersonationId, ProfileError>(id),
{
    reveal_strlit("chrome_117");
    reveal_strlit("safari_ios_17.4.1");
    reveal_strlit("okhttp_5");
    reveal_strlit("firefox_117");
    assert("okhttp_5"@.len() == 8);
    assert("chrome_117"@[0] == 'c');
    assert("firefox_117"@[0] == 'f');
    assert("safari_ios_17.4.1"@.len() == 17);
}

/// The TLS template of the build's family, with the build's values.
pub open spec fn template_of(id: ImpersonationId) -> TlsParametersView {
    match id {
        ImpersonationId::Chrome117 => chrome::spec_tls(117),
        ImpersonationId::SafariIos17_4_1 => safari::spec_tls(),
        ImpersonationId::OkHttp5 => okhttp::spec_tls(),
        ImpersonationId::Firefox117 => firefox::spec_tls(),
    }
}

/// The HTTP/2 preface of the build.
pub open spec fn preface_of(id: ImpersonationId) -> Http2FrameSettingsView {
    match id {
        ImpersonationId::Chrome117 => chrome::spec_http2_117(),
        ImpersonationId::SafariIos17_4_1 => safari::spec_http2_ios_17_4_1(),
        ImpersonationId::OkHttp5 => okhttp::spec_http2_5(),
        ImpersonationId::Firefox117 => firefox::spec_http2_117(),
    }
}

/// The default headers of the build, in the order in which it sends them.
pub open spec fn default_headers_of(id: ImpersonationId) -> Seq<(Seq<char>, Seq<char>)> {
    match id {
        ImpersonationId::Chrome117 => chrome::spec_headers_117(),
        ImpersonationId::SafariIos17_4_1 => safari::spec_headers_ios_17_4_1(),
        ImpersonationId::OkHttp5 => okhttp::spec_headers_5(),
        ImpersonationId::Firefox117 => firefox::spec_headers_117(),
    }
}

/// Whether a profile of the build leaves HTTP/2 out: the caller asked for
/// it, or the build is of the OkHttp family, which keeps to HTTP/1.1.
pub open spec fn skips_http2(id: ImpersonationId, options: ImpersonateOptionsView) -> bool {
    options.skip_http2 || id.spec_family() == Family::OkHttp
}

/// The TLS parameters of a build under the caller's options. Without
/// HTTP/2, ALPN advertises `http/1.1` alone and ALPS nothing.
pub open spec fn tls_of(id: ImpersonationId, options: ImpersonateOptionsView) -> TlsParametersView {
    let template = template_of(id);
    let skip = skips_http2(id, options);
    TlsParametersView {
        alpn_protocols: if skip {
            seq![AlpnProtocol::Http11]
        } else {
            template.alpn_protocols
        },
        alps: if skip {
            None
        } else {
            template.alps
        },
        permute_extensions: match options.permute_extensions {
            Some(permute) => permute,
            None => template.permute_extensions,
        },
        permutation_seed: options.permutation_seed,
        enable_ech_grease: options.enable_ech_grease,
        accept_invalid_certs: options.accept_invalid_certs,
        ..template
    }
}

/// Whether the orders given in the options can be used with the build.
pub open spec fn overrides_are_valid(id: ImpersonationId, options: ImpersonateOptionsView) -> bool {
    &&& options.settings_order matches Some(order) ==> valid_settings_order(
        preface_of(id),
        order,
    )
    &&& options.headers_pseudo_order matches Some(order) ==> valid_pseudo_order(order)
}

/// The HTTP/2 frame policy of a build under the caller's options.
pub open spec fn http2_of(
    id: ImpersonationId,
    options: ImpersonateOptionsView,
) -> Http2FrameSettingsView {
    let preface = preface_of(id);
    Http2FrameSettingsView {
        settings_order: match options.settings_order {
            Some(order) => order,
            None => preface.settings_order,
        },
        headers_pseudo_order: match options.headers_pseudo_order {
            Some(order) => order,
            None => preface.headers_pseudo_order,
        },
        headers_priority: options.headers_priority,
        ..preface
    }
}

/// What the registry returns for a build under the caller's options.
pub open spec fn profile_of(id: ImpersonationId, options: ImpersonateOptionsView) -> Result<
    ImpersonationProfileView,
    ProfileError,
> {
    if overrides_are_valid(id, options) {
        Ok(
            ImpersonationProfileView {
                id,
                tls: tls_of(id, options),
                http2: http2_of(id, options),
                skip_http2: skips_http2(id, options),
                skip_headers: options.skip_headers,
            },
        )
    } else {
        Err(ProfileError::MalformedOverride)
    }
}

/// The profile of a build under the caller's options. Fails with
/// `MalformedOverride` exactly when an order given in the options cannot
/// be used with the build.
pub fn get_settings(id: ImpersonationId, options: ImpersonateOptions) -> (r: Result<
    ImpersonationProfile,
    ProfileError,
>)
    ensures
        match r {
            Ok(profile) => profile_of(id, options@) == Ok::<
                ImpersonationProfileView,
                ProfileError,
            >(profile@),
            Err(e) => profile_of(id, options@) == Err::<ImpersonationProfileView, ProfileError>(e),
        },
{
    let ghost chosen = options@;
    let ImpersonateOptions {
        skip_http2,
        skip_headers,
        enable_ech_grease,
        accept_invalid_certs,
        permute_extensions,
        permutation_seed,
        settings_order,
        headers_pseudo_order,
        headers_priority,
    } = options;
    let skip = skip_http2 || id.family() == Family::OkHttp;
    let mut tls = match id {
        ImpersonationId::Chrome117 => chrome::tls(117),
        ImpersonationId::SafariIos17_4_1 => safari::tls(),
        ImpersonationId::OkHttp5 => okhttp::tls(),
        ImpersonationId::Firefox117 => firefox::tls(),
    };
    if skip {
        tls.alpn_protocols = vec![AlpnProtocol::Http11];
        tls.alps = None;
    }
    match permute_extensions {
        Some(permute) => {
            tls.permute_extensions = permute;
        },
        None => {},
    }
    tls.permutation_seed = permutation_seed;
    tls.enable_ech_grease = enable_ech_grease;
    tls.accept_invalid_certs = accept_invalid_certs;
    let mut http2 = match id {
        ImpersonationId::Chrome117 => chrome::http2_117(),
        ImpersonationId::SafariIos17_4_1 => safari::http2_ios_17_4_1(),
        ImpersonationId::OkHttp5 => okhttp::http2_5(),
        ImpersonationId::Firefox117 => firefox::http2_117(),
    };
    match settings_order {
        Some(order) => {
            if !http2.accepts_settings_order(&order) {
                return Err(ProfileError::MalformedOverride);
            }
            http2.settings_order = order;
        },
        None => {},
    }
    match headers_pseudo_order {
        Some(order) => {
            if !accepts_pseudo_order(&order) {
                return Err(ProfileError::MalformedOverride);
            }
            http2.headers_pseudo_order = order;
        },
        None => {},
    }
    http2.headers_priority = headers_priority;
    let profile = ImpersonationProfile { id, tls, http2, skip_http2: skip, skip_headers };
    assert(profile@.tls =~= tls_of(id, chosen));
    assert(profile@.http2 =~= http2_of(id, chosen));
    assert(profile@ =~= profile_of(id, chosen)->Ok_0);
    Ok(profile)
}

/// The default headers of a build, in the order in which it sends them.
pub fn default_headers(id: ImpersonationId) -> (r: Vec<(&'static str, &'static str)>)
    ensures
        texts(r@) == default_headers_of(id),
        all_plain(default_headers_of(id)),
{
    match id {
        ImpersonationId::Chrome117 => chrome::headers_117(),
        ImpersonationId::SafariIos17_4_1 => safari::headers_ios_17_4_1(),
        ImpersonationId::OkHttp5 => okhttp::headers_5(),
        ImpersonationId::Firefox117 => firefox::headers_117(),
    }
}

/// Puts the default headers of the profile's build into the map, in the
/// build's order, each in place of what the map held under its name. A
/// profile that skips the headers leaves the map as it is. Fails when the
/// map refuses a header for want of room; those before it are then in the
/// map. A map in which the headers leave the entries within [`SURE_ROOM`]
/// and one takes them all.
pub fn header_initializer(profile: &ImpersonationProfile, map: &mut HeaderMap<HeaderValue>) -> (r:
    Result<(), HeaderMapFull>)
    ensures
        profile.skip_headers ==> r is Ok && header_entries(*final(map)) == header_entries(
            *old(map),
        ),
        header_entries(*old(map)).len() + default_headers_of(profile.id).len() <= SURE_ROOM + 1
            ==> r is Ok,
        !profile.skip_headers ==> match r {
            Ok(()) => header_entries(*final(map)) == entries_after_all(
                header_entries(*old(map)),
                default_headers_of(profile.id),
            ),
            Err(full) => full.inserted < default_headers_of(profile.id).len() && header_entries(
                *final(map),
            ) == entries_after_all(
                header_entries(*old(map)),
                default_headers_of(profile.id).take(full.inserted as int),
            ),
        },
{
    if profile.skip_headers {
        return Ok(());
    }
    let headers = default_headers(profile.id);
    insert_headers(map, &headers)
}

/// No two of the default headers of a build have the same name.
pub proof fn lemma_default_names_are_distinct(id: ImpersonationId)
    ensures
        distinct_names(default_headers_of(id)),
{
    match id {
        ImpersonationId::Chrome117 => chrome::lemma_headers_117_distinct(),
        ImpersonationId::SafariIos17_4_1 => safari::lemma_headers_ios_17_4_1_distinct(),
        ImpersonationId::OkHttp5 => okhttp::lemma_headers_5_distinct(),
        ImpersonationId::Firefox117 => firefox::lemma_headers_117_distinct(),
    }
}

/// Into a map that holds none of their names, the default headers of a
/// build go in the build's order, behind what the map held.
pub proof fn lemma_default_headers_keep_their_order(
    id: ImpersonationId,
    entries: Seq<(Seq<char>, Seq<u8>)>,
)
    requires
        forall|i: int|
            0 <= i < default_headers_of(id).len() ==> !has_name(
                entries,
                (#[trigger] default_headers_of(id)[i]).0,
            ),
    ensures
        entries_after_all(entries, default_headers_of(id)) == entries + written(
            default_headers_of(id),
        ),
{
    lemma_default_names_are_distinct(id);
    lemma_new_headers_are_appended(entries, default_headers_of(id));
}

/// After the default headers of a build were inserted, whatever the map
/// held, each default name has one entry, with the build's value, and
/// every other name has the values that it had.
pub proof fn lemma_default_headers_are_present(
    id: ImpersonationId,
    entries: Seq<(Seq<char>, Seq<u8>)>,
)
    ensures
        forall|i: int|
            0 <= i < default_headers_of(id).len() ==> values_of(
                entries_after_all(entries, default_headers_of(id)),
                (#[trigger] default_headers_of(id)[i]).0,
            ) == seq![ascii_bytes(default_headers_of(id)[i].1)],
        forall|name: Seq<char>|
            (forall|i: int|
                0 <= i < default_headers_of(id).len() ==> (#[trigger] default_headers_of(
                    id,
                )[i]).0 != name) ==> #[trigger] values_of(
                entries_after_all(entries, default_headers_of(id)),
                name,
            ) == values_of(entries, name),
{
    lemma_default_names_are_distinct(id);
    lemma_inserted_headers_are_present(entries, default_headers_of(id));
}

/// Inserting the default headers of a build a second time changes nothing.
pub proof fn lemma_default_headers_twice_is_once(
    id: ImpersonationId,
    entries: Seq<(Seq<char>, Seq<u8>)>,
)
    ensures
        entries_after_all(
            entries_after_all(entries, default_headers_of(id)),
            default_headers_of(id),
        ) == entries_after_all(entries, default_headers_of(id)),
{
    lemma_default_names_are_distinct(id);
    lemma_insert_twice_is_once(entries, default_headers_of(id));
}

/// Every profile that the registry returns has a cipher list of each kind
/// that is not empty, advertises at least one protocol by ALPN (`http/1.1`
/// alone without HTTP/2, `h2` before it otherwise), names in its order of
/// SETTINGS parameters only parameters that it has a value for, none
/// twice, and orders each pseudo-header once.
pub proof fn lemma_profile_invariants(id: ImpersonationId, options: ImpersonateOptionsView)
    ensures
        profile_of(id, options) matches Ok(profile) ==> {
            &&& profile.tls.cipher_list.len() > 0
            &&& profile.tls.tls13_cipher_list.len() > 0
            &&& profile.tls.alpn_protocols.len() > 0
            &&& profile.skip_http2 ==> profile.tls.alpn_protocols == seq![AlpnProtocol::Http11]
            &&& !profile.skip_http2 ==> profile.tls.alpn_protocols == seq![
                AlpnProtocol::H2,
                AlpnProtocol::Http11,
            ]
            &&& profile.http2.order_is_valid()
            &&& profile.http2.pseudo_order_is_valid()
        },
{
    if profile_of(id, options) is Ok {
        let profile = profile_of(id, options)->Ok_0;
        let preface = preface_of(id);
        lemma_prefaces_are_valid(id);
        assert forall|s: SettingId| profile.http2.value(s) == preface.value(s) by {}
        assert(valid_settings_order(profile.http2, profile.http2.settings_order));
    }
}

/// The orders that the builds come with are valid.
proof fn lemma_prefaces_are_valid(id: ImpersonationId)
    ensures
        preface_of(id).order_is_valid(),
        preface_of(id).pseudo_order_is_valid(),
{
    let order = preface_of(id).headers_pseudo_order;
    assert(order.len() == 4);
    assert(order[0] == PseudoHeader::Method);
    match id {
        ImpersonationId::Chrome117 => {
            assert(order[1] == PseudoHeader::Authority);
            assert(order[2] == PseudoHeader::Scheme);
            assert(order[3] == PseudoHeader::Path);
        },
        ImpersonationId::SafariIos17_4_1 => {
            assert(order[1] == PseudoHeader::Scheme);
            assert(order[2] == PseudoHeader::Path);
            assert(order[3] == PseudoHeader::Authority);
        },
        ImpersonationId::OkHttp5 => {
            assert(order[1] == PseudoHeader::Path);
            assert(order[2] == PseudoHeader::Authority);
            assert(order[3] == PseudoHeader::Scheme);
        },
        ImpersonationId::Firefox117 => {
            assert(order[1] == PseudoHeader::Path);
            assert(order[2] == PseudoHeader::Authority);
            assert(order[3] == PseudoHeader::Scheme);
        },
    }
}

/// Without orders of the caller's own the registry returns a profile for
/// every build, whatever the flags.
pub proof fn lemma_profile_without_overrides(id: ImpersonationId, options: ImpersonateOptionsView)
    requires
        options.settings_order is None,
        options.headers_pseudo_order is None,
    ensures
        profile_of(id, options) is Ok,
{
}

/// The same build and the same options give the same profile.
pub proof fn lemma_same_inputs_same_profile(
    id: ImpersonationId,
    first: ImpersonateOptionsView,
    second: ImpersonateOptionsView,
)
    requires
        first.skip_http2 == second.skip_http2,
        first.skip_headers == second.skip_headers,
        first.enable_ech_grease == second.enable_ech_grease,
        first.accept_invalid_certs == second.accept_invalid_certs,
        first.permute_extensions == second.permute_extensions,
        first.permutation_seed == second.permutation_seed,
        first.settings_order == second.settings_order,
        first.headers_pseudo_order == second.headers_pseudo_order,
        first.headers_priority == second.headers_priority,
    ensures
        profile_of(id, first) == profile_of(id, second),
{
    assert(first =~= second);
}

} // verus!
