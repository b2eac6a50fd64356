//! Organizations and their profiles: resource paths, name checks and profile patches.

use vstd::prelude::*;

use crate::cli::ProfileUpdateFields;
use crate::error::CliError;
use crate::json::JsonValue;
use crate::text::{
    chars_of, decimal, hex_digit, is_hex_digit, push_decimal, string_from_chars, trim, trim_seq,
    utf16_len, utf16_len_at_most,
};

verus! {

/// An organization as D6E Auth returns it.
pub struct OrganizationRecord {
    pub id: String,
    pub name: String,
    pub status: String,
    pub created_at: Option<String>,
}

/// The caller's membership of an organization.
pub struct Membership {
    pub role: String,
    pub joined_at: String,
    pub organization: OrganizationRecord,
}

/// The answer to `GET /api/v1/organizations`.
pub struct MembershipsResponse {
    pub memberships: Vec<Membership>,
}

/// The answer to creating or renaming an organization.
pub struct OrganizationResponse {
    pub organization: OrganizationRecord,
}

/// The answer to `GET /api/v1/organizations/{id}`.
pub struct OrganizationDetailResponse {
    pub organization: OrganizationRecord,
    pub role: String,
}

/// The values of an organization profile.
pub struct ProfileValues {
    pub legal_name: Option<String>,
    pub country: Option<String>,
    pub address: Option<JsonValue>,
    pub billing_email: Option<String>,
    pub phone: Option<String>,
}

/// The answer to reading or updating an organization profile.
pub struct OrganizationProfileResponse {
    pub organization: OrganizationRecord,
    pub profile: ProfileValues,
    pub tax_ids: Vec<JsonValue>,
    pub updated_at: Option<String>,
    pub version: String,
}

/// The request body that sets a name.
pub struct NameRequest {
    pub name: String,
}

/// Whether `s` is a UUID in its hyphenated form: hexadecimal groups of 8, 4, 4, 4 and 12
/// digits separated by `-`.
pub open spec fn is_uuid(s: Seq<char>) -> bool {
    &&& s.len() == 36
    &&& forall|k: int|
        0 <= k < 36 ==> if k == 8 || k == 13 || k == 18 || k == 23 {
            s[k] == '-'
        } else {
            is_hex_digit(#[trigger] s[k])
        }
}

/// Decides `is_uuid` for the characters `v[start..]`, which must be exactly 36 long.
pub fn uuid_at(v: &Vec<char>, start: usize) -> (r: bool)
    requires
        start <= v@.len(),
    ensures
        r == is_uuid(v@.skip(start as int)),
{
    if v.len() - start != 36 {
        return false;
    }
    let ghost s = v@.skip(start as int);
    let mut k: usize = 0;
    while k < 36
        invariant
            start + 36 == v.len(),
            s == v@.skip(start as int),
            k <= 36,
            forall|j: int|
                0 <= j < k ==> if j == 8 || j == 13 || j == 18 || j == 23 {
                    s[j] == '-'
                } else {
                    is_hex_digit(#[trigger] s[j])
                },
        decreases 36 - k,
    {
        let c = v[start + k];
        assert(c == s[k as int]);
        let ok = if k == 8 || k == 13 || k == 18 || k == 23 {
            c == '-'
        } else {
            hex_digit(c)
        };
        if !ok {
            return false;
        }
        k = k + 1;
    }
    true
}

/// The message that refuses an organization ID.
pub open spec fn organization_id_refusal() -> Seq<char> {
    "organization_id must be a UUID"@
}

/// The API path of organization `organization_id` followed by `suffix`; the ID must be a UUID,
/// so that it cannot change the path.
pub fn organization_path(organization_id: &str, suffix: &str) -> (r: Result<String, CliError>)
    ensures
        match r {
            Ok(p) => is_uuid(organization_id@) && p@ == "api/v1/organizations/"@
                + organization_id@ + suffix@,
            Err(e) => e matches CliError::InvalidInput { message } && message@
                == organization_id_refusal() && !is_uuid(organization_id@),
        },
{
    let v = chars_of(organization_id);
    proof {
        assert(v@.skip(0) =~= v@);
    }
    if !uuid_at(&v, 0) {
        return Err(CliError::InvalidInput { message: String::from_str("organization_id must be a UUID") });
    }
    let mut path = String::from_str("api/v1/organizations/");
    path.append(organization_id);
    path.append(suffix);
    Ok(path)
}

/// The message that refuses an empty organization name.
pub open spec fn empty_name_refusal() -> Seq<char> {
    "name cannot be empty"@
}

/// An organization name with surrounding whitespace removed; it must not be empty.
pub fn trimmed_name(name: &str) -> (r: Result<String, CliError>)
    ensures
        match r {
            Ok(n) => n@ == trim_seq(name@) && n@.len() > 0,
            Err(e) => e matches CliError::InvalidInput { message } && message@
                == empty_name_refusal() && trim_seq(name@).len() == 0,
        },
{
    let trimmed = trim(name);
    if trimmed.as_str().is_empty() {
        return Err(CliError::InvalidInput { message: String::from_str("name cannot be empty") });
    }
    Ok(trimmed)
}

/// A change to one optional text field: clear it, or assign it a value.
pub enum TextUpdate {
    Clear,
    Assign(String),
}

/// The value of a `TextUpdate`.
pub enum TextUpdateView {
    Clear,
    Assign(Seq<char>),
}

impl View for TextUpdate {
    type V = TextUpdateView;

    open spec fn view(&self) -> TextUpdateView {
        match self {
            TextUpdate::Clear => TextUpdateView::Clear,
            TextUpdate::Assign(s) => TextUpdateView::Assign(s@),
        }
    }
}

/// The view of an optional field change; `None` leaves the field as it is.
pub open spec fn opt_update_view(u: Option<TextUpdate>) -> Option<TextUpdateView> {
    match u {
        Some(t) => Some(t@),
        None => None,
    }
}

/// The message that refuses a text field whose trimmed length is outside `1..=max_length`.
pub open spec fn length_refusal(key: Seq<char>, max_length: nat) -> Seq<char> {
    key + " must contain 1 to "@ + decimal(max_length) + " characters"@
}

/// The change that `--<field> value` and `--clear-<field>` ask for: clearing wins; a value is
/// trimmed and must have 1 to `max_length` UTF-16 code units; with neither, the field is kept.
pub open spec fn text_update_spec(
    key: Seq<char>,
    value: Option<String>,
    clear: bool,
    max_length: nat,
) -> Result<Option<TextUpdateView>, Seq<char>> {
    if clear {
        Ok(Some(TextUpdateView::Clear))
    } else {
        match value {
            None => Ok(None),
            Some(v) => {
                let t = trim_seq(v@);
                if t.len() == 0 || utf16_len(t) > max_length {
                    Err(length_refusal(key, max_length))
                } else {
                    Ok(Some(TextUpdateView::Assign(t)))
                }
            },
        }
    }
}

/// The result of a field check, with the error reduced to its message.
pub open spec fn update_result_view(r: Result<Option<TextUpdate>, CliError>) -> Result<
    Option<TextUpdateView>,
    Seq<char>,
> {
    match r {
        Ok(u) => Ok(opt_update_view(u)),
        Err(CliError::InvalidInput { message }) => Err(message@),
        Err(_) => Err(Seq::empty()),
    }
}

fn length_message(key: &str, max_length: usize) -> (r: String)
    ensures
        r@ == length_refusal(key@, max_length as nat),
{
    let mut digits: Vec<char> = Vec::new();
    push_decimal(max_length as u64, &mut digits);
    let digits = string_from_chars(&digits);
    let mut message = key.to_owned();
    message.append(" must contain 1 to ");
    message.append(digits.as_str());
    message.append(" characters");
    message
}

/// The change to one nullable text field of a patch (see `text_update_spec`).
pub fn nullable_text(key: &str, value: Option<String>, clear: bool, max_length: usize) -> (r:
    Result<Option<TextUpdate>, CliError>)
    ensures
        update_result_view(r) == text_update_spec(key@, value, clear, max_length as nat),
        r matches Err(e) ==> e is InvalidInput,
{
    if clear {
        return Ok(Some(TextUpdate::Clear));
    }
    match value {
        None => Ok(None),
        Some(v) => {
            let trimmed = trim(v.as_str());
            let chars = chars_of(trimmed.as_str());
            if trimmed.as_str().is_empty() || !utf16_len_at_most(&chars, max_length) {
                return Err(CliError::InvalidInput { message: length_message(key, max_length) });
            }
            Ok(Some(TextUpdate::Assign(trimmed)))
        },
    }
}


/// Changes to the parts of an organization's postal address; `None` keeps a part.
pub struct AddressUpdate {
    pub line1: Option<TextUpdate>,
    pub line2: Option<TextUpdate>,
    pub city: Option<TextUpdate>,
    pub state: Option<TextUpdate>,
    pub postal_code: Option<TextUpdate>,
}

/// A change to the postal address as a whole.
pub enum AddressPatch {
    /// Remove the entire address (`"address": null`).
    Clear,
    /// Change some of its parts.
    Update(AddressUpdate),
}

/// The body of an organization profile PATCH: `None` omits a field, which the server keeps;
/// `Clear` sends `null`, which removes it.
pub struct ProfilePatch {
    pub legal_name: Option<TextUpdate>,
    pub country: Option<TextUpdate>,
    pub billing_email: Option<TextUpdate>,
    pub phone: Option<TextUpdate>,
    pub address: Option<AddressPatch>,
}

pub struct AddressUpdateView {
    pub line1: Option<TextUpdateView>,
    pub line2: Option<TextUpdateView>,
    pub city: Option<TextUpdateView>,
    pub state: Option<TextUpdateView>,
    pub postal_code: Option<TextUpdateView>,
}

pub enum AddressPatchView {
    Clear,
    Update(AddressUpdateView),
}

pub struct ProfilePatchView {
    pub legal_name: Option<TextUpdateView>,
    pub country: Option<TextUpdateView>,
    pub billing_email: Option<TextUpdateView>,
    pub phone: Option<TextUpdateView>,
    pub address: Option<AddressPatchView>,
}

impl View for AddressUpdate {
    type V = AddressUpdateView;

    open spec fn view(&self) -> AddressUpdateView {
        AddressUpdateView {
            line1: opt_update_view(self.line1),
            line2: opt_update_view(self.line2),
            city: opt_update_view(self.city),
            state: opt_update_view(self.state),
            postal_code: opt_update_view(self.postal_code),
        }
    }
}

impl View for AddressPatch {
    type V = AddressPatchView;

    open spec fn view(&self) -> AddressPatchView {
        match self {
            AddressPatch::Clear => AddressPatchView::Clear,
            AddressPatch::Update(u) => AddressPatchView::Update(u@),
        }
    }
}

impl View for ProfilePatch {
    type V = ProfilePatchView;

    open spec fn view(&self) -> ProfilePatchView {
        ProfilePatchView {
            legal_name: opt_update_view(self.legal_name),
            country: opt_update_view(self.country),
            billing_email: opt_update_view(self.billing_email),
            phone: opt_update_view(self.phone),
            address: match self.address {
                Some(a) => Some(a@),
                None => None,
            },
        }
    }
}

/// Whether `c` is an uppercase ISO 3166-1 alpha-2 shaped code: two letters `A`–`Z`.
pub open spec fn is_country_code(c: Seq<char>) -> bool {
    c.len() == 2 && forall|k: int| 0 <= k < 2 ==> 'A' <= #[trigger] c[k] && c[k] <= 'Z'
}

/// The message that refuses a country that is not an uppercase two-letter code.
pub open spec fn country_refusal() -> Seq<char> {
    "country must be an uppercase ISO 3166-1 alpha-2 code"@
}

/// The message that refuses an empty profile patch.
pub open spec fn empty_profile_patch_refusal() -> Seq<char> {
    "specify at least one profile field to update"@
}

/// The change to the address that the options ask for: `--clear-address` removes it as a
/// whole; otherwise each part is checked in order, and the address is left out when no part
/// changes.
pub open spec fn address_patch_spec(f: ProfileUpdateFields) -> Result<
    Option<AddressPatchView>,
    Seq<char>,
> {
    if f.clear_address {
        Ok(Some(AddressPatchView::Clear))
    } else {
        match text_update_spec("line1"@, f.address_line1, f.clear_address_line1, 200) {
            Err(m) => Err(m),
            Ok(line1) => match text_update_spec(
                "line2"@,
                f.address_line2,
                f.clear_address_line2,
                200,
            ) {
                Err(m) => Err(m),
                Ok(line2) => match text_update_spec(
                    "city"@,
                    f.address_city,
                    f.clear_address_city,
                    200,
                ) {
                    Err(m) => Err(m),
                    Ok(city) => match text_update_spec(
                        "state"@,
                        f.address_state,
                        f.clear_address_state,
                        200,
                    ) {
                        Err(m) => Err(m),
                        Ok(state) => match text_update_spec(
                            "postalCode"@,
                            f.address_postal_code,
                            f.clear_address_postal_code,
                            200,
                        ) {
                            Err(m) => Err(m),
                            Ok(postal_code) => if line1 is None && line2 is None && city is None
                                && state is None && postal_code is None {
                                Ok(None)
                            } else {
                                Ok(
                                    Some(
                                        AddressPatchView::Update(
                                            AddressUpdateView {
                                                line1,
                                                line2,
                                                city,
                                                state,
                                                postal_code,
                                            },
                                        ),
                                    ),
                                )
                            },
                        },
                    },
                },
            },
        }
    }
}

/// The profile patch that the options ask for, or the message of the first check that fails:
/// legal name (200), country (2, then its shape), billing email (320), phone (50), then the
/// address; a patch that changes nothing is refused.
pub open spec fn profile_patch_spec(f: ProfileUpdateFields) -> Result<ProfilePatchView, Seq<char>> {
    match text_update_spec("legalName"@, f.legal_name, f.clear_legal_name, 200) {
        Err(m) => Err(m),
        Ok(legal_name) => match text_update_spec("country"@, f.country, f.clear_country, 2) {
            Err(m) => Err(m),
            Ok(country) => if country matches Some(TextUpdateView::Assign(c)) && !is_country_code(
                c,
            ) {
                Err(country_refusal())
            } else {
                match text_update_spec(
                    "billingEmail"@,
                    f.billing_email,
                    f.clear_billing_email,
                    320,
                ) {
                    Err(m) => Err(m),
                    Ok(billing_email) => match text_update_spec(
                        "phone"@,
                        f.phone,
                        f.clear_phone,
                        50,
                    ) {
                        Err(m) => Err(m),
                        Ok(phone) => match address_patch_spec(f) {
                            Err(m) => Err(m),
                            Ok(address) => if legal_name is None && country is None
                                && billing_email is None && phone is None && address is None {
                                Err(empty_profile_patch_refusal())
                            } else {
                                Ok(
                                    ProfilePatchView {
                                        legal_name,
                                        country,
                                        billing_email,
                                        phone,
                                        address,
                                    },
                                )
                            },
                        },
                    },
                }
            },
        },
    }
}

fn invalid(message: &str) -> (e: CliError)
    ensures
        e matches CliError::InvalidInput { message: m } && m@ == message@,
{
    CliError::InvalidInput { message: message.to_owned() }
}

fn is_country_code_str(c: &String) -> (r: bool)
    ensures
        r == is_country_code(c@),
{
    let v = chars_of(c.as_str());
    v.len() == 2 && 'A' <= v[0] && v[0] <= 'Z' && 'A' <= v[1] && v[1] <= 'Z'
}

fn address_patch(f: &ProfileUpdateFields) -> (r: Result<Option<AddressPatch>, CliError>)
    ensures
        match r {
            Ok(a) => address_patch_spec(*f) == Ok::<Option<AddressPatchView>, Seq<char>>(
                match a {
                    Some(x) => Some(x@),
                    None => None,
                },
            ),
            Err(e) => e matches CliError::InvalidInput { message } && address_patch_spec(*f)
                == Err::<Option<AddressPatchView>, Seq<char>>(message@),
        },
{
    if f.clear_address {
        return Ok(Some(AddressPatch::Clear));
    }
    let line1 = nullable_text("line1", f.address_line1.clone(), f.clear_address_line1, 200)?;
    let line2 = nullable_text("line2", f.address_line2.clone(), f.clear_address_line2, 200)?;
    let city = nullable_text("city", f.address_city.clone(), f.clear_address_city, 200)?;
    let state = nullable_text("state", f.address_state.clone(), f.clear_address_state, 200)?;
    let postal_code = nullable_text(
        "postalCode",
        f.address_postal_code.clone(),
        f.clear_address_postal_code,
        200,
    )?;
    if line1.is_none() && line2.is_none() && city.is_none() && state.is_none()
        && postal_code.is_none() {
        return Ok(None);
    }
    Ok(Some(AddressPatch::Update(AddressUpdate { line1, line2, city, state, postal_code })))
}

/// The PATCH body for `organization profile update` (see `profile_patch_spec`).
pub fn profile_patch(fields: ProfileUpdateFields) -> (r: Result<ProfilePatch, CliError>)
    ensures
        match r {
            Ok(p) => profile_patch_spec(fields) == Ok::<ProfilePatchView, Seq<char>>(p@),
            Err(e) => e matches CliError::InvalidInput { message } && profile_patch_spec(fields)
                == Err::<ProfilePatchView, Seq<char>>(message@),
        },
{
    let f = fields;
    let legal_name = nullable_text("legalName", f.legal_name.clone(), f.clear_legal_name, 200)?;
    let country = nullable_text("country", f.country.clone(), f.clear_country, 2)?;
    if let Some(TextUpdate::Assign(c)) = &country {
        if !is_country_code_str(c) {
            return Err(invalid("country must be an uppercase ISO 3166-1 alpha-2 code"));
        }
    }
    let billing_email = nullable_text(
        "billingEmail",
        f.billing_email.clone(),
        f.clear_billing_email,
        320,
    )?;
    let phone = nullable_text("phone", f.phone.clone(), f.clear_phone, 50)?;
    let address = address_patch(&f)?;
    if legal_name.is_none() && country.is_none() && billing_email.is_none() && phone.is_none()
        && address.is_none() {
        return Err(invalid("specify at least one profile field to update"));
    }
    Ok(ProfilePatch { legal_name, country, billing_email, phone, address })
}

/// The `If-Match` value of a profile update: the `ETag` of the profile just read. Without an
/// `ETag` the read is a protocol error and no update is sent.
pub fn profile_if_match(etag: Option<String>) -> (r: Result<String, CliError>)
    ensures
        match etag {
            Some(t) => r == Ok::<String, CliError>(t),
            None => r matches Err(CliError::MissingApiHeader { header }) && header@ == "ETag"@,
        },
{
    match etag {
        Some(t) => Ok(t),
        None => Err(CliError::MissingApiHeader { header: String::from_str("ETag") }),
    }
}

/// Whether `c` may stand in a path segment without changing the path: an ASCII letter or digit,
/// `-` or `_` (never `/`, `.`, `?`, `#` or `%`).
pub open spec fn is_plain_segment_char(c: char) -> bool {
    ('a' <= c && c <= 'z') || ('A' <= c && c <= 'Z') || ('0' <= c && c <= '9') || c == '-' || c
        == '_'
}

/// An organization ID that the path builders accept cannot change the path around it: every
/// character is a hexadecimal digit or `-`.
pub proof fn uuid_cannot_change_the_path(id: Seq<char>)
    requires
        is_uuid(id),
    ensures
        forall|k: int| 0 <= k < id.len() ==> is_plain_segment_char(#[trigger] id[k]),
{
    assert forall|k: int| 0 <= k < id.len() implies is_plain_segment_char(#[trigger] id[k]) by {
        if !(k == 8 || k == 13 || k == 18 || k == 23) {
            assert(is_hex_digit(id[k]));
        }
    }
}

/// The change that one field's options ask for: a clear flag clears it, a value assigns the
/// trimmed value, and neither keeps it.
pub open spec fn field_rule(value: Option<String>, clear: bool) -> Option<TextUpdateView> {
    if clear {
        Some(TextUpdateView::Clear)
    } else {
        match value {
            None => None,
            Some(v) => Some(TextUpdateView::Assign(trim_seq(v@))),
        }
    }
}

/// In an accepted profile patch, omitted fields are left out (the server keeps them), a clear
/// flag sends `null` (the server removes the field), and a value is sent trimmed; clearing the
/// address removes it as a whole.
pub proof fn profile_patch_keeps_clears_or_assigns(f: ProfileUpdateFields)
    requires
        profile_patch_spec(f) is Ok,
    ensures
        ({
            let p = profile_patch_spec(f)->Ok_0;
            &&& p.legal_name == field_rule(f.legal_name, f.clear_legal_name)
            &&& p.country == field_rule(f.country, f.clear_country)
            &&& p.billing_email == field_rule(f.billing_email, f.clear_billing_email)
            &&& p.phone == field_rule(f.phone, f.clear_phone)
            &&& f.clear_address ==> p.address == Some(AddressPatchView::Clear)
            &&& !f.clear_address ==> match p.address {
                None => field_rule(f.address_line1, f.clear_address_line1) is None
                    && field_rule(f.address_line2, f.clear_address_line2) is None
                    && field_rule(f.address_city, f.clear_address_city) is None
                    && field_rule(f.address_state, f.clear_address_state) is None
                    && field_rule(f.address_postal_code, f.clear_address_postal_code) is None,
                Some(AddressPatchView::Update(a)) => a.line1 == field_rule(
                    f.address_line1,
                    f.clear_address_line1,
                ) && a.line2 == field_rule(f.address_line2, f.clear_address_line2) && a.city
                    == field_rule(f.address_city, f.clear_address_city) && a.state == field_rule(
                    f.address_state,
                    f.clear_address_state,
                ) && a.postal_code == field_rule(
                    f.address_postal_code,
                    f.clear_address_postal_code,
                ),
                Some(AddressPatchView::Clear) => false,
            }
        }),
{
}

/// Whether the options of one text field pass its check: cleared, not given, or a value whose
/// trimmed form has 1 to `max_length` UTF-16 code units.
pub open spec fn field_acceptable(value: Option<String>, clear: bool, max_length: nat) -> bool {
    clear || match value {
        None => true,
        Some(v) => trim_seq(v@).len() > 0 && utf16_len(trim_seq(v@)) <= max_length,
    }
}

/// Whether the options of `organization profile update` ask to change anything: a value or a
/// clear flag for some field, or `--clear-address`.
pub open spec fn asks_for_a_change(f: ProfileUpdateFields) -> bool {
    ||| f.legal_name is Some || f.clear_legal_name
    ||| f.country is Some || f.clear_country
    ||| f.billing_email is Some || f.clear_billing_email
    ||| f.phone is Some || f.clear_phone
    ||| f.address_line1 is Some || f.clear_address_line1
    ||| f.address_line2 is Some || f.clear_address_line2
    ||| f.address_city is Some || f.clear_address_city
    ||| f.address_state is Some || f.clear_address_state
    ||| f.address_postal_code is Some || f.clear_address_postal_code
    ||| f.clear_address
}

/// A profile update is refused as empty only when it asks for no change: any request to change
/// at least one field (legal name, country, billing email, phone, an address part, or the whole
/// address) whose values pass their checks is accepted and sent.
pub proof fn any_acceptable_change_is_sent(f: ProfileUpdateFields)
    requires
        field_acceptable(f.legal_name, f.clear_legal_name, 200),
        field_acceptable(f.country, f.clear_country, 2),
        !f.clear_country ==> (f.country matches Some(c) ==> is_country_code(trim_seq(c@))),
        field_acceptable(f.billing_email, f.clear_billing_email, 320),
        field_acceptable(f.phone, f.clear_phone, 50),
        !f.clear_address ==> {
            &&& field_acceptable(f.address_line1, f.clear_address_line1, 200)
            &&& field_acceptable(f.address_line2, f.clear_address_line2, 200)
            &&& field_acceptable(f.address_city, f.clear_address_city, 200)
            &&& field_acceptable(f.address_state, f.clear_address_state, 200)
            &&& field_acceptable(f.address_postal_code, f.clear_address_postal_code, 200)
        },
        asks_for_a_change(f),
    ensures
        profile_patch_spec(f) is Ok,
{
}

} // verus!
