//! Devices of the active recipe: their identifiers as the router and the
//! image sockets write them, and the lookups the device pages make.
use vstd::prelude::*;
use vstd::string::*;
use crate::text::{device_image_url, offered, offered_sources};

verus! {

/// The character of a hexadecimal digit, in lower case.
pub open spec fn hex_digit(n: int) -> char {
    if n < 10 {
        (48 + n) as char
    } else {
        (87 + n) as char
    }
}

/// Sixteen to the power of `n`.
pub open spec fn pow16(n: nat) -> nat
    decreases n,
{
    if n == 0 {
        1
    } else {
        16 * pow16((n - 1) as nat)
    }
}

/// The `k`-th hexadecimal digit of `id`, counted from the most significant
/// one (`0 <= k < 32`).
pub open spec fn uuid_nibble(id: u128, k: int) -> int {
    ((id as nat) / pow16((31 - k) as nat)) as int % 16
}

/// How many hyphens of the hyphenated form stand before position `i`.
pub open spec fn hyphens_before(i: int) -> int {
    if i < 8 {
        0
    } else if i < 13 {
        1
    } else if i < 18 {
        2
    } else if i < 23 {
        3
    } else {
        4
    }
}

/// The hyphenated lower-case text of an identifier: its 32 hexadecimal
/// digits, most significant first, in groups of 8, 4, 4, 4 and 12.
pub open spec fn uuid_text(id: u128) -> Seq<char> {
    Seq::new(
        36,
        |i: int|
            if i == 8 || i == 13 || i == 18 || i == 23 {
                '-'
            } else {
                hex_digit(uuid_nibble(id, i - hyphens_before(i)))
            },
    )
}

/// The identifier that `uuid` reads from a text, if it reads one.
pub uninterp spec fn parsed_uuid(s: Seq<char>) -> Option<u128>;

/// Reads a device identifier with `uuid::Uuid::parse_str`.
///
/// Trusted: `pilatus`'s `DeviceId::from_str` is `Uuid::from_str(s).map(DeviceId)`,
/// and `Uuid::from_str` is `Uuid::parse_str`, which accepts several spellings
/// (simple, hyphenated, braced, URN, either case). Which texts it accepts is
/// left to the name [`parsed_uuid`]; the identifier is the 128-bit value of
/// the parsed UUID.
#[verifier::external_body]
fn parse_uuid(s: &str) -> (r: Result<u128, uuid::Error>)
    ensures
        match r {
            Ok(id) => parsed_uuid(s@) == Some(id),
            Err(_) => parsed_uuid(s@) is None,
        },
{
    match uuid::Uuid::parse_str(s) {
        Ok(id) => Ok(id.as_u128()),
        Err(e) => Err(e),
    }
}

/// Writes a device identifier as `uuid` displays it.
///
/// Trusted: `Uuid::from_u128` keeps the value's bytes in big-endian order,
/// and `Display` of `Uuid` writes the hyphenated lower-case form, which is
/// [`uuid_text`]. `Uuid::parse_str` is documented to read every format the
/// crate writes, so it reads that text back as the same identifier.
#[verifier::external_body]
fn device_id_text(id: u128) -> (r: String)
    ensures
        r@ == uuid_text(id),
        parsed_uuid(r@) == Some(id),
{
    uuid::Uuid::from_u128(id).to_string()
}

/// The text of a device identifier, as the addresses and messages show it.
pub fn format_device_id(id: u128) -> (r: String)
    ensures
        r@ == uuid_text(id),
        parsed_uuid(r@) == Some(id),
{
    device_id_text(id)
}

/// The address of a device's page, as the navigation links it:
/// `/device/{id}/{type}`. Its identifier reads back as the device's.
pub fn device_link(device_id: u128, device_type: &str) -> (r: String)
    ensures
        r@ == "/device/"@ + uuid_text(device_id) + "/"@ + device_type@,
        parsed_uuid(uuid_text(device_id)) == Some(device_id),
{
    let mut link = String::from_str("/device/");
    let id = device_id_text(device_id);
    link.append(id.as_str());
    link.append("/");
    link.append(device_type);
    link
}

/// The address of the raw image stream of the device `device_id` on the
/// backend at `base`.
pub fn build_device_url(base: &str, device_id: u128) -> (r: String)
    ensures
        r@ == base@ + "/api/image/subscribe?format=Raw&device_id="@ + uuid_text(device_id),
{
    let id = device_id_text(device_id);
    device_image_url(base, id.as_str())
}

/// The image stream addresses offered for a list of devices: one per device,
/// in their order, without those that contain the ignored text.
pub fn list_source_urls(base: &str, devices: &Vec<u128>, ignore: Option<&str>) -> (r: Vec<String>)
    ensures
        r@.map_values(|s: String| s@) == devices@.map_values(
            |id: u128| base@ + "/api/image/subscribe?format=Raw&device_id="@ + uuid_text(id),
        ).filter(
            |s: Seq<char>|
                match ignore {
                    Some(p) => !crate::text::contains_text(s, p@),
                    None => true,
                },
        ),
{
    let mut urls: Vec<String> = Vec::new();
    let mut i: usize = 0;
    while i < devices.len()
        invariant
            0 <= i <= devices@.len(),
            urls@.len() == i,
            forall|j: int|
                0 <= j < i ==> #[trigger] urls@[j]@ == base@
                    + "/api/image/subscribe?format=Raw&device_id="@ + uuid_text(devices@[j]),
        decreases devices@.len() - i,
    {
        let url = build_device_url(base, devices[i]);
        urls.push(url);
        i = i + 1;
    }
    let r = offered_sources(urls, ignore);
    proof {
        lemma_filter_views(
            urls@,
            offered(
                match ignore {
                    Some(p) => Some(p@),
                    None => None,
                },
            ),
            |s: Seq<char>|
                match ignore {
                    Some(p) => !crate::text::contains_text(s, p@),
                    None => true,
                },
        );
        assert(urls@.map_values(|s: String| s@) =~= devices@.map_values(
            |id: u128| base@ + "/api/image/subscribe?format=Raw&device_id="@ + uuid_text(id),
        ));
    }
    r
}

/// Filtering strings by a predicate on their text, then viewing them, is
/// viewing them, then filtering the texts.
proof fn lemma_filter_views(s: Seq<String>, p: spec_fn(String) -> bool, q: spec_fn(Seq<char>) -> bool)
    requires
        forall|x: String| #[trigger] p(x) == q(x@),
    ensures
        s.filter(p).map_values(|x: String| x@) == s.map_values(|x: String| x@).filter(q),
    decreases s.len(),
{
    reveal_with_fuel(Seq::<_>::filter, 1);
    if s.len() > 0 {
        lemma_filter_views(s.drop_last(), p, q);
        assert(s.drop_last().map_values(|x: String| x@) =~= s.map_values(|x: String| x@).drop_last());
        if p(s.last()) {
            assert(s.filter(p).map_values(|x: String| x@) =~= s.drop_last().filter(p).map_values(
                |x: String| x@,
            ).push(s.last()@));
        }
    } else {
        assert(s.filter(p) =~= Seq::<String>::empty());
        assert(s.map_values(|x: String| x@) =~= Seq::<Seq<char>>::empty());
    }
}

/// What the device pages know of a device of the active recipe.
#[derive(Clone, Debug)]
pub struct DeviceInfos {
    pub device_id: u128,
    pub name: String,
    pub device_type: String,
}

/// Whether a device with identifier `id` is among `devices`.
pub open spec fn holds_device(devices: Seq<DeviceInfos>, id: u128) -> bool {
    exists|i: int| 0 <= i < devices.len() && #[trigger] devices[i].device_id == id
}

/// Whether `d` is the first of `devices` with identifier `id`.
pub open spec fn first_with_id(devices: Seq<DeviceInfos>, id: u128, d: DeviceInfos) -> bool {
    exists|i: int|
        0 <= i < devices.len() && devices[i] == d && d.device_id == id && forall|j: int|
            0 <= j < i ==> #[trigger] devices[j].device_id != id
}

/// The device with identifier `id`, if the active recipe has one.
pub fn find_device(devices: &Vec<DeviceInfos>, id: u128) -> (r: Option<&DeviceInfos>)
    ensures
        r is None <==> !holds_device(devices@, id),
        r matches Some(d) ==> first_with_id(devices@, id, *d),
{
    let mut i: usize = 0;
    while i < devices.len()
        invariant
            0 <= i <= devices@.len(),
            forall|j: int| 0 <= j < i ==> #[trigger] devices@[j].device_id != id,
        decreases devices@.len() - i,
    {
        if devices[i].device_id == id {
            return Some(&devices[i]);
        }
        i = i + 1;
    }
    None
}

/// The device infos the device page shows for an optional identifier:
/// nothing without an identifier or without such a device.
pub fn get_active_device_infos(devices: &Vec<DeviceInfos>, device_id: Option<u128>) -> (r: Option<
    &DeviceInfos,
>)
    ensures
        match device_id {
            None => r is None,
            Some(id) => (r is None <==> !holds_device(devices@, id)) && (r matches Some(d)
                ==> first_with_id(devices@, id, *d)),
        },
{
    match device_id {
        None => None,
        Some(id) => find_device(devices, id),
    }
}

/// Why the device page shows no device.
#[derive(Debug)]
pub enum DeviceProblem {
    /// The route names no device.
    Missing,
    /// The route's text is no device identifier.
    Invalid(String),
    /// The active recipe has no device with this identifier.
    NotFound(u128),
}

/// Writes a text with `Debug`, as a quoted and escaped string.
///
/// Trusted: `Debug` of `str` writes the text between double quotes and
/// escapes only what `char::escape_debug` escapes; printable ASCII other than
/// the quote, the apostrophe and the backslash stays as it is. The whole text
/// is a function of `s`, named [`debug_text`].
#[verifier::external_body]
fn debug_quoted(s: &str) -> (r: String)
    ensures
        r@ == debug_text(s@),
        (forall|i: int| 0 <= i < s@.len() ==> debug_plain_char(#[trigger] s@[i])) ==> r@ == seq![
            '"',
        ] + s@ + seq!['"'],
{
    format!("{s:?}")
}

/// The text `Debug` of a `str` writes for `s`: quoted and escaped.
pub uninterp spec fn debug_text(s: Seq<char>) -> Seq<char>;

/// A character that `Debug` of a text writes as it is.
pub open spec fn debug_plain_char(c: char) -> bool {
    0x20 <= (c as u32) <= 0x7e && c != '"' && c != '\'' && c != '\\'
}

impl DeviceProblem {
    /// The message the device page shows.
    pub fn message(&self) -> (r: String)
        ensures
            match self {
                DeviceProblem::Missing => r@ == "No device ID provided"@,
                DeviceProblem::Invalid(s) => r@ == "Invalid device ID: "@ + debug_text(s@) && ((
                forall|i: int| 0 <= i < s@.len() ==> debug_plain_char(#[trigger] s@[i])) ==> r@
                    == "Invalid device ID: \""@ + s@ + "\""@),
                DeviceProblem::NotFound(id) => r@ == "No device with ID "@ + uuid_text(*id)
                    + " found in active recipe"@,
            },
    {
        match self {
            DeviceProblem::Missing => String::from_str("No device ID provided"),
            DeviceProblem::Invalid(s) => {
                let mut m = String::from_str("Invalid device ID: ");
                let quoted = debug_quoted(s.as_str());
                m.append(quoted.as_str());
                proof {
                    reveal_strlit("Invalid device ID: ");
                    reveal_strlit("Invalid device ID: \"");
                    reveal_strlit("\"");
                    assert(("Invalid device ID: "@ + seq!['"'] + s@ + seq!['"']) =~= (
                    "Invalid device ID: \""@ + s@ + "\""@));
                }
                m
            },
            DeviceProblem::NotFound(id) => {
                let mut m = String::from_str("No device with ID ");
                let text = device_id_text(*id);
                m.append(text.as_str());
                m.append(" found in active recipe");
                m
            },
        }
    }
}

/// Which device the device page shows for the identifier text of its route,
/// once that text was read: the device, or why there is none.
pub fn device_for_parsed<'a>(
    raw: Option<&str>,
    parsed: Option<u128>,
    devices: &'a Vec<DeviceInfos>,
) -> (r: Result<&'a DeviceInfos, DeviceProblem>)
    ensures
        match raw {
            None => r matches Err(DeviceProblem::Missing),
            Some(s) => match parsed {
                None => r matches Err(DeviceProblem::Invalid(t)) && t@ == s@,
                Some(id) => if holds_device(devices@, id) {
                    r matches Ok(d) && first_with_id(devices@, id, *d)
                } else {
                    r matches Err(DeviceProblem::NotFound(n)) && n == id
                },
            },
        },
{
    match raw {
        None => Err(DeviceProblem::Missing),
        Some(s) => match parsed {
            None => Err(DeviceProblem::Invalid(s.to_string())),
            Some(id) => match find_device(devices, id) {
                Some(d) => Ok(d),
                None => Err(DeviceProblem::NotFound(id)),
            },
        },
    }
}

/// Which device the device page shows for the identifier text of its route:
/// the device, or why there is none.
pub fn device_for_route<'a>(raw: Option<&str>, devices: &'a Vec<DeviceInfos>) -> (r: Result<
    &'a DeviceInfos,
    DeviceProblem,
>)
    ensures
        match raw {
            None => r matches Err(DeviceProblem::Missing),
            Some(s) => match parsed_uuid(s@) {
                None => r matches Err(DeviceProblem::Invalid(t)) && t@ == s@,
                Some(id) => if holds_device(devices@, id) {
                    r matches Ok(d) && first_with_id(devices@, id, *d)
                } else {
                    r matches Err(DeviceProblem::NotFound(n)) && n == id
                },
            },
        },
{
    let parsed = match raw {
        None => None,
        Some(s) => match parse_uuid(s) {
            Ok(id) => Some(id),
            Err(_) => None,
        },
    };
    device_for_parsed(raw, parsed, devices)
}

/// The route parameters of a device page.
#[derive(Debug, Clone, Copy)]
pub struct DeviceParams {
    pub device_id: u128,
}

/// Why the route parameters of a device page could not be read.
#[derive(Debug)]
pub enum DeviceParamsError {
    /// The parameter of this name is missing.
    MissingParam(String),
    /// The parameter is no device identifier.
    Params(uuid::Error),
}

impl DeviceParams {
    /// The parameters, once the `device_id` parameter, if there is one, was
    /// read as an identifier.
    pub fn from_parsed(parsed: Option<Result<u128, uuid::Error>>) -> (r: Result<
        DeviceParams,
        DeviceParamsError,
    >)
        ensures
            match parsed {
                None => r matches Err(DeviceParamsError::MissingParam(name)) && name@
                    == "device_id"@,
                Some(Ok(id)) => r matches Ok(p) && p.device_id == id,
                Some(Err(_)) => r matches Err(DeviceParamsError::Params(_)),
            },
    {
        match parsed {
            None => Err(DeviceParamsError::MissingParam(String::from_str("device_id"))),
            Some(Ok(id)) => Ok(DeviceParams { device_id: id }),
            Some(Err(e)) => Err(DeviceParamsError::Params(e)),
        }
    }

    /// Reads the parameters from the value of the route's `device_id`
    /// parameter, if it has one.
    pub fn from_map(device_id: Option<&str>) -> (r: Result<DeviceParams, DeviceParamsError>)
        ensures
            match device_id {
                None => r matches Err(DeviceParamsError::MissingParam(name)) && name@
                    == "device_id"@,
                Some(s) => match parsed_uuid(s@) {
                    Some(id) => r matches Ok(p) && p.device_id == id,
                    None => r matches Err(DeviceParamsError::Params(_)),
                },
            },
    {
        let parsed = match device_id {
            None => None,
            Some(s) => Some(parse_uuid(s)),
        };
        Self::from_parsed(parsed)
    }
}

/// The parameters of a device as read for a typed view: those of the recipe
/// being edited, or, where they do not fit the type, those of the last valid
/// recipe, read only then.
pub fn params_or_fallback<T, E, F: FnOnce() -> Result<T, E>>(current: Result<T, E>, fallback: F) -> (r:
    Result<T, E>)
    requires
        current is Err ==> call_requires(fallback, ()),
    ensures
        current is Ok ==> r == current,
        current is Err ==> call_ensures(fallback, (), r),
{
    match current {
        Ok(v) => Ok(v),
        Err(_) => fallback(),
    }
}

/// The stream of a device is never offered when its own identifier is the
/// ignored text: its address holds that identifier.
pub proof fn lemma_own_stream_not_offered(base: Seq<char>, id: u128)
    ensures
        crate::text::contains_text(
            base + "/api/image/subscribe?format=Raw&device_id="@ + uuid_text(id),
            uuid_text(id),
        ),
{
    let prefix = base + "/api/image/subscribe?format=Raw&device_id="@;
    let url = prefix + uuid_text(id);
    assert(url.subrange(prefix.len() as int, (prefix.len() + uuid_text(id).len()) as int) =~= uuid_text(id));
    assert(crate::text::occurs_at(url, uuid_text(id), prefix.len() as int));
}

} // verus!
