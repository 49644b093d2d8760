//! The two REST collaborators as the bot sees them: the link service, which
//! maps platform users to store accounts, and the store's coupon API. This
//! module decides request targets and how answers are read; sending is left to
//! the caller.

use crate::text::{decimal, decimal_string, join};
use crate::time::{
    add_days, days_later, now, parse_rfc3339, rfc3339_instant, rfc3339_text, to_rfc3339, Timestamp,
};
use vstd::prelude::*;
use vstd::utf8::encode_utf8;

verus! {

/// Raised when a client cannot be set up from the process configuration.
#[derive(Debug)]
pub struct HttpClientError;

impl HttpClientError {
    pub fn message(&self) -> (r: String)
        ensures
            r@ == "HTTP Error: An error occurred while building the HTTP client"@,
    {
        String::from_str("HTTP Error: An error occurred while building the HTTP client")
    }
}

/// Raised when an answer of the link service cannot be used.
#[derive(Debug)]
pub struct LinkClientHTTPError;

impl LinkClientHTTPError {
    pub fn message(&self) -> (r: String)
        ensures
            r@ == "HTTP Error: An error occurred in the Link Client"@,
    {
        String::from_str("HTTP Error: An error occurred in the Link Client")
    }
}

/// Raised when an answer of the store's coupon API cannot be used.
#[derive(Debug)]
pub struct GMSClientHTTPError;

impl GMSClientHTTPError {
    pub fn message(&self) -> (r: String)
        ensures
            r@ == "HTTP Error: An error occurred in the Link Client"@,
    {
        String::from_str("HTTP Error: An error occurred in the Link Client")
    }
}

/// Raised when a coupon request breaks one of the store's limits.
#[derive(Debug)]
pub struct CouponBuilderError;

impl CouponBuilderError {
    pub fn message(&self) -> (r: String)
        ensures
            r@ == "An error occurred whilst building the coupon"@,
    {
        String::from_str("An error occurred whilst building the coupon")
    }
}

/// HTTP status with which the link service answers for an unknown user.
pub const NOT_FOUND: u16 = 404;

/// Whether an HTTP status reports success.
pub open spec fn is_success(status: u16) -> bool {
    200 <= status <= 299
}

/// Decides whether an HTTP status reports success.
pub fn succeeded(status: u16) -> (r: bool)
    ensures
        r == is_success(status),
{
    200 <= status && status <= 299
}

/// Root of the store's API.
pub open spec fn store_api_root() -> Seq<char> {
    "https://www.gmodstore.com/api/v3"@
}

/// Value of the `Authorization` header for a bearer token.
pub fn bearer(token: &str) -> (r: String)
    ensures
        r@ == "Bearer "@ + token@,
{
    join("Bearer ", token)
}

/// Copies an optional text.
pub fn clone_text(text: &Option<String>) -> (r: Option<String>)
    ensures
        r == *text,
{
    match text {
        Some(t) => Some(t.clone()),
        None => None,
    }
}

/// Envelope of the link service's answer to a user lookup.
#[derive(Debug)]
pub struct ApiUserResponse {
    pub data: ApiUserObject,
}

/// A linked account as the link service sends it.
#[derive(Debug)]
pub struct ApiUserObject {
    pub uuid: String,
    pub name: Option<String>,
    pub steam_id: u64,
    pub discord_id: Option<u64>,
    pub gmod_store_id: Option<String>,
    pub avatar: Option<String>,
    pub created_at: String,
    pub updated_at: String,
}

/// Envelope of the link service's answer to a purchases request.
#[derive(Debug)]
pub struct ApiPurchasesResponse {
    pub data: ApiPurchaseObject,
}

/// The six product entitlements of one linked account.
#[derive(Clone, Copy, Debug, PartialEq, Eq, Structural)]
pub struct ApiPurchaseObject {
    pub lsac: bool,
    pub swift_ac: bool,
    pub hit_reg: bool,
    pub screen_grabs: bool,
    pub workshop_dl: bool,
    pub sexy_errors: bool,
}

/// A linked account.
#[derive(Debug)]
pub struct User {
    pub uuid: String,
    pub name: Option<String>,
    pub steam_id: u64,
    pub discord_id: Option<u64>,
    pub gmod_store_id: Option<String>,
    pub avatar: Option<String>,
    pub created_at: String,
    pub updated_at: String,
}

impl Clone for User {
    fn clone(&self) -> (r: Self)
        ensures
            r == *self,
    {
        User {
            uuid: self.uuid.clone(),
            name: clone_text(&self.name),
            steam_id: self.steam_id,
            discord_id: self.discord_id,
            gmod_store_id: clone_text(&self.gmod_store_id),
            avatar: clone_text(&self.avatar),
            created_at: self.created_at.clone(),
            updated_at: self.updated_at.clone(),
        }
    }
}

impl User {
    /// The account that a lookup answer describes.
    pub open spec fn of(data: ApiUserObject) -> User {
        User {
            uuid: data.uuid,
            name: data.name,
            steam_id: data.steam_id,
            discord_id: data.discord_id,
            gmod_store_id: data.gmod_store_id,
            avatar: data.avatar,
            created_at: data.created_at,
            updated_at: data.updated_at,
        }
    }

    /// Reads the answer to a purchases request. `body` is the decoded answer,
    /// or `None` where it could not be decoded. Any status but success is an
    /// error, and so is a missing body.
    pub fn get_purchases(&self, status: u16, body: Option<ApiPurchasesResponse>) -> (r: Result<
        ApiPurchaseObject,
        LinkClientHTTPError,
    >)
        ensures
            r is Ok <==> is_success(status) && body is Some,
            r matches Ok(purchases) ==> purchases == body->0.data,
    {
        if !succeeded(status) {
            return Err(LinkClientHTTPError);
        }
        match body {
            Some(b) => Ok(b.data),
            None => Err(LinkClientHTTPError),
        }
    }

    /// Reads the answer to a delete request: the link is gone exactly when
    /// the service reports success.
    pub fn delete(&self, status: u16) -> (r: Result<(), LinkClientHTTPError>)
        ensures
            r is Ok <==> is_success(status),
    {
        if succeeded(status) {
            Ok(())
        } else {
            Err(LinkClientHTTPError)
        }
    }
}

/// Client side of the link service.
#[derive(Debug)]
pub struct LinkClient {
    pub url: String,
}

impl LinkClient {
    /// A base URL is usable when it is not empty and does not end in `/`.
    pub open spec fn usable(url: Seq<char>) -> bool {
        url.len() > 0 && url.last() != '/'
    }

    /// Target of a lookup by platform id.
    pub open spec fn lookup_target(base: Seq<char>, discord_id: nat) -> Seq<char> {
        base + "/api/users/discord/"@ + decimal(discord_id)
    }

    /// Target of a purchases request.
    pub open spec fn purchases_target(base: Seq<char>, uuid: Seq<char>) -> Seq<char> {
        base + "/api/users/"@ + uuid + "/purchases"@
    }

    /// Target of a delete request.
    pub open spec fn delete_target(base: Seq<char>, uuid: Seq<char>) -> Seq<char> {
        base + "/api/users/"@ + uuid
    }

    /// Accepts the configured base URL unless it is empty or ends in `/`.
    pub fn new(api_url: String) -> (r: Result<Self, HttpClientError>)
        ensures
            r is Ok <==> Self::usable(api_url@),
            r matches Ok(c) ==> c.url == api_url,
    {
        let count: usize = api_url.as_str().unicode_len();
        if count == 0 {
            return Err(HttpClientError);
        }
        if api_url.as_str().get_char(count - 1) == '/' {
            return Err(HttpClientError);
        }
        Ok(LinkClient { url: api_url })
    }

    pub fn lookup_url(&self, discord_id: u64) -> (r: String)
        ensures
            r@ == Self::lookup_target(self.url@, discord_id as nat),
    {
        let id = decimal_string(discord_id);
        join(self.url.as_str(), "/api/users/discord/").concat(id.as_str())
    }

    pub fn purchases_url(&self, user: &User) -> (r: String)
        ensures
            r@ == Self::purchases_target(self.url@, user.uuid@),
    {
        join(self.url.as_str(), "/api/users/").concat(user.uuid.as_str()).concat("/purchases")
    }

    pub fn delete_url(&self, user: &User) -> (r: String)
        ensures
            r@ == Self::delete_target(self.url@, user.uuid@),
    {
        join(self.url.as_str(), "/api/users/").concat(user.uuid.as_str())
    }

    /// Reads the answer to a lookup. `body` is the decoded answer, or `None`
    /// where it could not be decoded. Status 404 means that the platform user
    /// is not linked; any other status but success is an error; on success
    /// the body is the account, and a missing body is an error.
    pub fn get_user_by_discord(&self, status: u16, body: Option<ApiUserResponse>) -> (r: Result<
        Option<User>,
        LinkClientHTTPError,
    >)
        ensures
            r is Ok <==> status == NOT_FOUND || (is_success(status) && body is Some),
            r matches Ok(found) ==> found == if status == NOT_FOUND {
                None
            } else {
                Some(User::of(body->0.data))
            },
    {
        if status == NOT_FOUND {
            return Ok(None);
        }
        if !succeeded(status) {
            return Err(LinkClientHTTPError);
        }
        match body {
            Some(b) => {
                let data = b.data;
                Ok(
                    Some(
                        User {
                            uuid: data.uuid,
                            name: data.name,
                            steam_id: data.steam_id,
                            discord_id: data.discord_id,
                            gmod_store_id: data.gmod_store_id,
                            avatar: data.avatar,
                            created_at: data.created_at,
                            updated_at: data.updated_at,
                        },
                    ),
                )
            },
            None => Err(LinkClientHTTPError),
        }
    }
}

/// Paging cursors of a coupon listing.
#[derive(Debug)]
pub struct GMSCursorsObject {
    pub previous: Option<String>,
    pub next: Option<String>,
}

/// Paging details of a coupon listing.
#[derive(Debug)]
pub struct GMSMetaObject {
    pub per_age: u8,
}

/// A coupon as the store sends it.
#[derive(Debug)]
pub struct GMSCouponObject {
    pub id: String,
    pub code: String,
    pub percent: u8,
    pub max_uses: u8,
    pub bound_user: Option<String>,
    pub expires_at: String,
    pub created_at: String,
    pub updated_at: String,
}

impl Clone for GMSCouponObject {
    fn clone(&self) -> (r: Self)
        ensures
            r == *self,
    {
        GMSCouponObject {
            id: self.id.clone(),
            code: self.code.clone(),
            percent: self.percent,
            max_uses: self.max_uses,
            bound_user: clone_text(&self.bound_user),
            expires_at: self.expires_at.clone(),
            created_at: self.created_at.clone(),
            updated_at: self.updated_at.clone(),
        }
    }
}

impl GMSCouponObject {
    /// Whether the coupon is bound to the store account `account`.
    pub open spec fn bound_to(self, account: Seq<char>) -> bool {
        self.bound_user matches Some(b) && b@ == account
    }

    /// Whether the coupon's expiry reads as an instant strictly after `now`.
    pub open spec fn unexpired_at(self, now: Timestamp) -> bool {
        match rfc3339_instant(self.expires_at@) {
            Some((secs, nanos)) => secs > now.secs || (secs == now.secs && nanos > now.nanos),
            None => false,
        }
    }

    /// A coupon is active for an account when it is bound to that account and
    /// has not expired.
    pub open spec fn active_for(self, account: Seq<char>, now: Timestamp) -> bool {
        self.bound_to(account) && self.unexpired_at(now)
    }
}

/// A page of coupons.
#[derive(Debug)]
pub struct GMSCouponsResponse {
    pub data: Vec<GMSCouponObject>,
    pub connections: Vec<String>,
    pub cursors: GMSCursorsObject,
    pub meta: Option<GMSMetaObject>,
}

/// Envelope of the store's answer to a coupon creation.
#[derive(Debug)]
pub struct GMSCouponCreateResponse {
    pub data: GMSCouponObject,
}

/// Whether every coupon of the listing carries an expiry that reads as an
/// instant.
pub open spec fn all_dated(coupons: Seq<GMSCouponObject>) -> bool {
    forall|i: int| 0 <= i < coupons.len() ==> rfc3339_instant(#[trigger] coupons[i].expires_at@) is Some
}

/// The coupons of a listing that are active for `account` at `now`, in the
/// order of the listing.
pub open spec fn active_coupons(
    coupons: Seq<GMSCouponObject>,
    account: Seq<char>,
    now: Timestamp,
) -> Seq<GMSCouponObject> {
    coupons.filter(|c: GMSCouponObject| c.active_for(account, now))
}

/// How a selection is handed on: the active coupons where there are some,
/// `None` where there is none.
pub open spec fn reads_as(found: Option<Vec<GMSCouponObject>>, active: Seq<GMSCouponObject>) -> bool {
    match found {
        Some(v) => v@ == active && active.len() > 0,
        None => active.len() == 0,
    }
}

/// Selects from a listing the coupons that are active for `account` at `now`.
/// A coupon whose expiry cannot be read fails the whole selection.
pub fn select_active(coupons: &Vec<GMSCouponObject>, account: &String, now: Timestamp) -> (r:
    Result<Vec<GMSCouponObject>, GMSClientHTTPError>)
    ensures
        r is Ok <==> all_dated(coupons@),
        r matches Ok(v) ==> v@ == active_coupons(coupons@, account@, now),
{
    let mut kept: Vec<GMSCouponObject> = Vec::new();
    let ghost pred = |c: GMSCouponObject| c.active_for(account@, now);
    let mut i: usize = 0;
    while i < coupons.len()
        invariant
            i <= coupons.len(),
            pred == |c: GMSCouponObject| c.active_for(account@, now),
            all_dated(coupons@.take(i as int)),
            kept@ == coupons@.take(i as int).filter(pred),
        decreases coupons.len() - i,
    {
        let coupon = &coupons[i];
        let expiry = match parse_rfc3339(coupon.expires_at.as_str()) {
            Ok(t) => t,
            Err(_) => {
                return Err(GMSClientHTTPError);
            },
        };
        let bound = match &coupon.bound_user {
            Some(b) => *b == *account,
            None => false,
        };
        proof {
            let before = coupons@.take(i as int);
            assert(coupons@.take(i + 1) =~= before.push(coupons@[i as int]));
            before.lemma_filter_push(coupons@[i as int], pred);
            assert forall|j: int| 0 <= j < i + 1 implies rfc3339_instant(
                #[trigger] coupons@.take(i + 1)[j].expires_at@,
            ) is Some by {
                if j < i {
                    assert(before[j] == coupons@.take(i + 1)[j]);
                }
            }
        }
        if bound && expiry.is_after(&now) {
            kept.push(coupon.clone());
        }
        i = i + 1;
    }
    assert(coupons@.take(i as int) =~= coupons@);
    Ok(kept)
}

/// A coupon is listed as active exactly when it is in the listing, is bound to
/// the requesting account, and expires strictly after the clock reading.
pub proof fn lemma_active_iff(
    coupons: Seq<GMSCouponObject>,
    account: Seq<char>,
    now: Timestamp,
    coupon: GMSCouponObject,
)
    ensures
        active_coupons(coupons, account, now).contains(coupon) <==> coupons.contains(coupon)
            && coupon.bound_to(account) && coupon.unexpired_at(now),
{
    let pred = |c: GMSCouponObject| c.active_for(account, now);
    let chosen = coupons.filter(pred);
    if chosen.contains(coupon) {
        coupons.lemma_filter_contains_rev(pred, coupon);
        let k = choose|k: int| 0 <= k < chosen.len() && chosen[k] == coupon;
        coupons.lemma_filter_pred(pred, k);
    }
    if coupons.contains(coupon) && coupon.active_for(account, now) {
        let k = choose|k: int| 0 <= k < coupons.len() && coupons[k] == coupon;
        coupons.lemma_filter_contains(pred, k);
    }
}

/// Number of days after which a new coupon expires.
pub const COUPON_LIFETIME_DAYS: u64 = 7;

/// A request to create a coupon, checked against the store's limits.
#[derive(Debug)]
pub struct CouponBuilder {
    pub code: String,
    pub percent: u8,
    pub max_uses: u8,
    pub bound_user_id: Option<String>,
    pub expires_at: String,
}

impl CouponBuilder {
    /// The store's limits: a discount of 1 to 90 percent, 1 to 100 uses, and a
    /// code of 1 to 64 bytes in UTF-8.
    pub open spec fn acceptable(code: Seq<char>, percent: u8, max_uses: u8) -> bool {
        &&& 0 < percent <= 90
        &&& 0 < max_uses <= 100
        &&& 1 <= encode_utf8(code).len() <= 64
    }

    /// Decides whether the three values are within the store's limits.
    pub fn check(code: &String, percent: u8, max_uses: u8) -> (r: Result<(), CouponBuilderError>)
        ensures
            r is Ok <==> Self::acceptable(code@, percent, max_uses),
    {
        if percent > 90 {
            return Err(CouponBuilderError);
        }
        if percent == 0 {
            return Err(CouponBuilderError);
        }
        if max_uses > 100 {
            return Err(CouponBuilderError);
        }
        if max_uses == 0 {
            return Err(CouponBuilderError);
        }
        let length: usize = code.as_str().as_bytes().len();
        if length > 64 {
            return Err(CouponBuilderError);
        }
        if length == 0 {
            return Err(CouponBuilderError);
        }
        Ok(())
    }

    /// Builds the request with a given expiry text. It succeeds exactly when
    /// the values are within the store's limits, and then holds the arguments
    /// unchanged.
    pub fn with_expiry(
        code: String,
        percent: u8,
        max_uses: u8,
        bound_user_id: Option<String>,
        expires_at: String,
    ) -> (r: Result<Self, CouponBuilderError>)
        ensures
            r is Ok <==> Self::acceptable(code@, percent, max_uses),
            r matches Ok(b) ==> b == (CouponBuilder {
                code,
                percent,
                max_uses,
                bound_user_id,
                expires_at,
            }),
    {
        match Self::check(&code, percent, max_uses) {
            Ok(_) => Ok(CouponBuilder { code, percent, max_uses, bound_user_id, expires_at }),
            Err(e) => Err(e),
        }
    }

    /// The expiry of a coupon made at `made`: the text of the instant seven
    /// days later, or `None` where that instant cannot be had or written.
    pub open spec fn expiry_text(made: Timestamp) -> Option<Seq<char>> {
        match days_later(made.secs as int, made.nanos as int, COUPON_LIFETIME_DAYS as int) {
            Some((secs, nanos)) => rfc3339_text(secs, nanos),
            None => None,
        }
    }

    /// What building at the clock reading `made` gives: the request with the
    /// arguments unchanged and the expiry of that reading, where the values
    /// are within the store's limits and the expiry can be had; an error
    /// otherwise.
    pub open spec fn built_at(
        code: String,
        percent: u8,
        max_uses: u8,
        bound_user_id: Option<String>,
        made: Timestamp,
        r: Result<CouponBuilder, CouponBuilderError>,
    ) -> bool {
        if Self::acceptable(code@, percent, max_uses) && Self::expiry_text(made) is Some {
            &&& r matches Ok(b)
            &&& b.code == code
            &&& b.percent == percent
            &&& b.max_uses == max_uses
            &&& b.bound_user_id == bound_user_id
            &&& Some(b.expires_at@) == Self::expiry_text(made)
        } else {
            r is Err
        }
    }

    /// Writes the expiry of a coupon made at `made`. Where a text comes back,
    /// it is the text of the instant `86400 * 7` seconds after `made`.
    pub fn expiry_from(made: Timestamp) -> (r: Option<String>)
        ensures
            match r {
                Some(text) => Self::expiry_text(made) == Some(text@),
                None => Self::expiry_text(made) is None,
            },
            r matches Some(text) ==> rfc3339_text(
                made.secs + 86_400 * COUPON_LIFETIME_DAYS,
                made.nanos as int,
            ) == Some(text@),
    {
        match add_days(made, COUPON_LIFETIME_DAYS) {
            Some(end) => to_rfc3339(end),
            None => None,
        }
    }

    /// Builds the request as of the clock reading `made`.
    pub fn made_at(
        code: String,
        percent: u8,
        max_uses: u8,
        bound_user_id: Option<String>,
        made: Timestamp,
    ) -> (r: Result<Self, CouponBuilderError>)
        ensures
            Self::built_at(code, percent, max_uses, bound_user_id, made, r),
    {
        match Self::check(&code, percent, max_uses) {
            Ok(_) => {},
            Err(e) => {
                return Err(e);
            },
        }
        match Self::expiry_from(made) {
            Some(expires_at) => Self::with_expiry(code, percent, max_uses, bound_user_id, expires_at),
            None => Err(CouponBuilderError),
        }
    }

    /// Builds the request with an expiry seven days after the clock reading.
    /// Values outside the store's limits are refused before the clock is
    /// read; within them the result is what building at the clock reading
    /// gives, so the request fails only where the expiry of that reading
    /// cannot be had.
    pub fn new(code: String, percent: u8, max_uses: u8, bound_user_id: Option<String>) -> (r:
        Result<Self, CouponBuilderError>)
        ensures
            !Self::acceptable(code@, percent, max_uses) ==> r is Err,
            exists|made: Timestamp| #[trigger]
                Self::built_at(code, percent, max_uses, bound_user_id, made, r),
    {
        match Self::check(&code, percent, max_uses) {
            Ok(_) => {},
            Err(e) => {
                assert(Self::built_at(
                    code,
                    percent,
                    max_uses,
                    bound_user_id,
                    Timestamp { secs: 0, nanos: 0 },
                    Err(e),
                ));
                return Err(e);
            },
        }
        let made = now();
        Self::made_at(code, percent, max_uses, bound_user_id, made)
    }
}

/// Client side of the store's coupon API.
#[derive(Debug)]
pub struct GmodStoreClient {
    pub url: String,
}

impl GmodStoreClient {
    /// Target of a coupon listing or creation for one product.
    pub open spec fn coupons_target(base: Seq<char>, addon: Seq<char>) -> Seq<char> {
        base + "/products/"@ + addon + "/coupons"@
    }

    pub fn new() -> (r: Self)
        ensures
            r.url@ == store_api_root(),
    {
        GmodStoreClient { url: String::from_str("https://www.gmodstore.com/api/v3") }
    }

    pub fn coupons_url(&self, addon: &str) -> (r: String)
        ensures
            r@ == Self::coupons_target(self.url@, addon@),
    {
        join(self.url.as_str(), "/products/").concat(addon).concat("/coupons")
    }

    /// The query pair that narrows a listing to one store account. A linked
    /// account without a store id cannot be asked about.
    pub fn bound_user_filter(user: &User) -> (r: Result<(String, String), GMSClientHTTPError>)
        ensures
            r is Ok <==> user.gmod_store_id is Some,
            r matches Ok(pair) ==> pair.0@ == "filter[boundUserId]"@ && Some(pair.1)
                == user.gmod_store_id,
    {
        match &user.gmod_store_id {
            Some(id) => Ok((String::from_str("filter[boundUserId]"), id.clone())),
            None => Err(GMSClientHTTPError),
        }
    }

    /// Reads a listing against a given clock reading: the active coupons of
    /// the account in listing order, or `None` where there is none.
    pub fn active_at(&self, user: &User, listing: &Vec<GMSCouponObject>, now: Timestamp) -> (r:
        Result<Option<Vec<GMSCouponObject>>, GMSClientHTTPError>)
        ensures
            r is Ok <==> user.gmod_store_id is Some && all_dated(listing@),
            r matches Ok(found) ==> reads_as(
                found,
                active_coupons(listing@, user.gmod_store_id->0@, now),
            ),
    {
        let account = match &user.gmod_store_id {
            Some(id) => id,
            None => {
                return Err(GMSClientHTTPError);
            },
        };
        match select_active(listing, account, now) {
            Ok(v) => if v.len() == 0 {
                Ok(None)
            } else {
                Ok(Some(v))
            },
            Err(e) => Err(e),
        }
    }

    /// Reads a listing against the system clock.
    pub fn get_coupons_by_user(&self, user: &User, listing: &Vec<GMSCouponObject>) -> (r: Result<
        Option<Vec<GMSCouponObject>>,
        GMSClientHTTPError,
    >)
        ensures
            r is Ok <==> user.gmod_store_id is Some && all_dated(listing@),
            r matches Ok(found) ==> exists|now: Timestamp|
                reads_as(
                    found,
                    #[trigger] active_coupons(listing@, user.gmod_store_id->0@, now),
                ),
    {
        let reading = now();
        self.active_at(user, listing, reading)
    }

    /// Reads the answer to a coupon listing. `body` is the decoded answer, or
    /// `None` where it could not be decoded. Any status but success is an
    /// error, and so is a missing body.
    pub fn listing(&self, status: u16, body: Option<GMSCouponsResponse>) -> (r: Result<
        Vec<GMSCouponObject>,
        GMSClientHTTPError,
    >)
        ensures
            r is Ok <==> is_success(status) && body is Some,
            r matches Ok(coupons) ==> coupons == body->0.data,
    {
        if !succeeded(status) {
            return Err(GMSClientHTTPError);
        }
        match body {
            Some(b) => Ok(b.data),
            None => Err(GMSClientHTTPError),
        }
    }

    /// Reads the answer to a coupon creation. `body` is the decoded answer, or
    /// `None` where it could not be decoded. Any status but success is an
    /// error, and so is a missing body.
    pub fn create_coupon(&self, status: u16, body: Option<GMSCouponCreateResponse>) -> (r: Result<
        GMSCouponObject,
        GMSClientHTTPError,
    >)
        ensures
            r is Ok <==> is_success(status) && body is Some,
            r matches Ok(coupon) ==> coupon == body->0.data,
    {
        if !succeeded(status) {
            return Err(GMSClientHTTPError);
        }
        match body {
            Some(b) => Ok(b.data),
            None => Err(GMSClientHTTPError),
        }
    }
}

/// The two clients, built once at startup and shared read-only.
#[derive(Debug)]
pub struct HttpClient {
    pub link_client: LinkClient,
    pub gmod_store_client: GmodStoreClient,
}

impl HttpClient {
    /// Sets up both clients from the configured base URL of the link service.
    pub fn new(api_url: String) -> (r: Result<Self, HttpClientError>)
        ensures
            r is Ok <==> LinkClient::usable(api_url@),
            r matches Ok(c) ==> c.link_client.url == api_url && c.gmod_store_client.url@
                == store_api_root(),
    {
        match LinkClient::new(api_url) {
            Ok(link_client) => Ok(
                HttpClient { link_client, gmod_store_client: GmodStoreClient::new() },
            ),
            Err(e) => Err(e),
        }
    }
}

} // verus!
