//! Business profiles, one for each owner, written only by their owner.

use vstd::prelude::*;
use vstd::string::*;
use crate::text::{count_digits, digits_of, starts_with};

verus! {

#[derive(Clone, Copy, Debug, PartialEq, Eq, Structural)]
pub enum BusinessType {
    SmallBusiness,
    Startup,
    Enterprise,
    Franchise,
}

#[derive(Clone, Copy, Debug, PartialEq, Eq, Structural)]
pub enum BusinessCategory {
    Supermarket,
    GroceryStore,
    Restaurant,
    FoodChain,
}

/// Why an operation on profiles failed.
#[derive(Debug)]
pub enum Error {
    NotFound,
    AlreadyExists,
    NotAuthorized,
    InvalidInput(String),
}

/// What an `Error` says.
pub enum ErrorView {
    NotFound,
    AlreadyExists,
    NotAuthorized,
    InvalidInput(Seq<char>),
}

impl View for Error {
    type V = ErrorView;

    open spec fn view(&self) -> ErrorView {
        match self {
            Error::NotFound => ErrorView::NotFound,
            Error::AlreadyExists => ErrorView::AlreadyExists,
            Error::NotAuthorized => ErrorView::NotAuthorized,
            Error::InvalidInput(m) => ErrorView::InvalidInput(m@),
        }
    }
}

/// The profile of one business. `owner` is the identity that may write it.
#[derive(Debug)]
pub struct BusinessProfile {
    pub owner: String,
    pub business_name: String,
    pub business_type: BusinessType,
    pub business_category: BusinessCategory,
    pub country: String,
    pub address: String,
    pub registration_number: String,
    pub logo_data: Option<Vec<u8>>,
    pub phone_number: String,
    pub email: String,
    pub website_url: String,
    pub completed_steps: Vec<u32>,
    pub created_at: u64,
    pub updated_at: u64,
}

/// What a `BusinessProfile` says.
pub struct ProfileView {
    pub owner: Seq<char>,
    pub business_name: Seq<char>,
    pub business_type: BusinessType,
    pub business_category: BusinessCategory,
    pub country: Seq<char>,
    pub address: Seq<char>,
    pub registration_number: Seq<char>,
    pub logo_data: Option<Seq<u8>>,
    pub phone_number: Seq<char>,
    pub email: Seq<char>,
    pub website_url: Seq<char>,
    pub completed_steps: Seq<u32>,
    pub created_at: u64,
    pub updated_at: u64,
}

impl View for BusinessProfile {
    type V = ProfileView;

    open spec fn view(&self) -> ProfileView {
        ProfileView {
            owner: self.owner@,
            business_name: self.business_name@,
            business_type: self.business_type,
            business_category: self.business_category,
            country: self.country@,
            address: self.address@,
            registration_number: self.registration_number@,
            logo_data: match self.logo_data {
                Some(bytes) => Some(bytes@),
                None => None,
            },
            phone_number: self.phone_number@,
            email: self.email@,
            website_url: self.website_url@,
            completed_steps: self.completed_steps@,
            created_at: self.created_at,
            updated_at: self.updated_at,
        }
    }
}

/// A copy of a list of plain values.
fn copy_bytes(v: &Vec<u8>) -> (r: Vec<u8>)
    ensures
        r@ == v@,
{
    let mut out: Vec<u8> = Vec::new();
    let mut i: usize = 0;
    while i < v.len()
        invariant
            i <= v.len(),
            out@ == v@.subrange(0, i as int),
        decreases v.len() - i,
    {
        out.push(v[i]);
        assert(out@ =~= v@.subrange(0, i + 1));
        i += 1;
    }
    assert(v@.subrange(0, v.len() as int) =~= v@);
    out
}

/// A copy of a list of step numbers.
fn copy_steps(v: &Vec<u32>) -> (r: Vec<u32>)
    ensures
        r@ == v@,
{
    let mut out: Vec<u32> = Vec::new();
    let mut i: usize = 0;
    while i < v.len()
        invariant
            i <= v.len(),
            out@ == v@.subrange(0, i as int),
        decreases v.len() - i,
    {
        out.push(v[i]);
        assert(out@ =~= v@.subrange(0, i + 1));
        i += 1;
    }
    assert(v@.subrange(0, v.len() as int) =~= v@);
    out
}

impl Clone for BusinessProfile {
    fn clone(&self) -> (r: Self)
        ensures
            r@ == self@,
    {
        BusinessProfile {
            owner: self.owner.clone(),
            business_name: self.business_name.clone(),
            business_type: self.business_type,
            business_category: self.business_category,
            country: self.country.clone(),
            address: self.address.clone(),
            registration_number: self.registration_number.clone(),
            logo_data: match &self.logo_data {
                Some(bytes) => Some(copy_bytes(bytes)),
                None => None,
            },
            phone_number: self.phone_number.clone(),
            email: self.email.clone(),
            website_url: self.website_url.clone(),
            completed_steps: copy_steps(&self.completed_steps),
            created_at: self.created_at,
            updated_at: self.updated_at,
        }
    }
}

/// A phone number holds 9 to 15 digits; what else it holds does not count.
pub open spec fn valid_phone_number(phone: Seq<char>) -> bool {
    9 <= digits_of(phone).len() <= 15
}

/// A web address begins with the mark of the http or the https scheme.
pub open spec fn valid_url(url: Seq<char>) -> bool {
    "https://"@.is_prefix_of(url) || "http://"@.is_prefix_of(url)
}

/// A registration number is 5 to 20 characters long.
pub open spec fn valid_registration_number(number: Seq<char>) -> bool {
    5 <= number.len() <= 20
}

pub fn is_valid_phone_number(phone: &str) -> (r: bool)
    ensures
        r == valid_phone_number(phone@),
{
    let digits: usize = count_digits(phone);
    digits >= 9 && digits <= 15
}

pub fn is_valid_url(url: &str) -> (r: bool)
    ensures
        r == valid_url(url@),
{
    starts_with(url, "https://") || starts_with(url, "http://")
}

pub fn is_valid_registration_number(reg_num: &str) -> (r: bool)
    ensures
        r == valid_registration_number(reg_num@),
{
    let n: usize = reg_num.unicode_len();
    n >= 5 && n <= 20
}

/// The profiles of a registry, in order.
pub open spec fn profiles_view(profiles: Seq<BusinessProfile>) -> Seq<ProfileView> {
    profiles.map_values(|p: BusinessProfile| p@)
}

/// Whether the profile at `i` belongs to `owner`.
pub open spec fn owned_at(profiles: Seq<ProfileView>, owner: Seq<char>, i: int) -> bool {
    0 <= i < profiles.len() && profiles[i].owner == owner
}

/// Whether `owner` has a profile.
pub open spec fn registered(profiles: Seq<ProfileView>, owner: Seq<char>) -> bool {
    exists|i: int| owned_at(profiles, owner, i)
}

/// The place of the profile of `owner`, where there is one.
pub open spec fn place_of(profiles: Seq<ProfileView>, owner: Seq<char>) -> int {
    choose|i: int| owned_at(profiles, owner, i)
}

/// No owner has two profiles.
pub open spec fn owners_distinct(profiles: Seq<ProfileView>) -> bool {
    forall|i: int, j: int|
        0 <= i < j < profiles.len() ==> (#[trigger] profiles[i]).owner != (
        #[trigger] profiles[j]).owner
}

/// Where owners are distinct, the place of an owner is the one place where
/// its profile is.
pub proof fn lemma_place_of(profiles: Seq<ProfileView>, owner: Seq<char>, i: int)
    requires
        owners_distinct(profiles),
        owned_at(profiles, owner, i),
    ensures
        registered(profiles, owner),
        place_of(profiles, owner) == i,
{
    let p = place_of(profiles, owner);
    assert(owned_at(profiles, owner, p));
    if p < i {
        assert(profiles[p].owner != profiles[i].owner);
    } else if i < p {
        assert(profiles[i].owner != profiles[p].owner);
    }
}

/// Why a new profile is refused, if it is. The checks come in this order:
/// the caller, the phone number, the web address, the registration number,
/// and that the caller has no profile yet.
pub open spec fn creation_refusal(
    profiles: Seq<ProfileView>,
    caller: Seq<char>,
    profile: ProfileView,
) -> Option<ErrorView> {
    if profile.owner != caller {
        Some(ErrorView::NotAuthorized)
    } else if !valid_phone_number(profile.phone_number) {
        Some(ErrorView::InvalidInput("Invalid phone number format"@))
    } else if !valid_url(profile.website_url) {
        Some(ErrorView::InvalidInput("Invalid website URL"@))
    } else if !valid_registration_number(profile.registration_number) {
        Some(ErrorView::InvalidInput("Invalid registration number format"@))
    } else if registered(profiles, caller) {
        Some(ErrorView::AlreadyExists)
    } else {
        None
    }
}

/// Why an update is refused, if it is: the caller is not the owner, or has
/// no profile.
pub open spec fn update_refusal(
    profiles: Seq<ProfileView>,
    caller: Seq<char>,
    profile: ProfileView,
) -> Option<ErrorView> {
    if profile.owner != caller {
        Some(ErrorView::NotAuthorized)
    } else if !registered(profiles, caller) {
        Some(ErrorView::NotFound)
    } else {
        None
    }
}

/// The profile `existing` after an update with `profile` at `now`: the
/// owner, the e-mail address, the completed steps and the time of creation
/// stay.
pub open spec fn updated(existing: ProfileView, profile: ProfileView, now: u64) -> ProfileView {
    ProfileView {
        business_name: profile.business_name,
        business_type: profile.business_type,
        business_category: profile.business_category,
        country: profile.country,
        address: profile.address,
        registration_number: profile.registration_number,
        logo_data: profile.logo_data,
        phone_number: profile.phone_number,
        website_url: profile.website_url,
        updated_at: now,
        ..existing
    }
}

/// The profile `existing` after the step `step_id` was completed at `now`.
/// A step that is completed already changes nothing.
pub open spec fn with_step(existing: ProfileView, step_id: u32, now: u64) -> ProfileView {
    if existing.completed_steps.contains(step_id) {
        existing
    } else {
        ProfileView {
            completed_steps: existing.completed_steps.push(step_id),
            updated_at: now,
            ..existing
        }
    }
}

/// The profiles, one for each owner.
pub struct ProfileRegistry {
    profiles: Vec<BusinessProfile>,
}

impl View for ProfileRegistry {
    type V = Seq<ProfileView>;

    closed spec fn view(&self) -> Seq<ProfileView> {
        profiles_view(self.profiles@)
    }
}

impl ProfileRegistry {
    pub open spec fn wf(&self) -> bool {
        owners_distinct(self@)
    }

    /// A registry without profiles.
    pub fn new() -> (r: Self)
        ensures
            r.wf(),
            r@.len() == 0,
    {
        ProfileRegistry { profiles: Vec::new() }
    }

    /// A registry of the given profiles, unless two of them have one owner.
    pub fn load(profiles: Vec<BusinessProfile>) -> (r: Option<Self>)
        ensures
            owners_distinct(profiles_view(profiles@)) ==> r is Some && r->0.wf() && r->0@
                == profiles_view(profiles@),
            !owners_distinct(profiles_view(profiles@)) ==> r is None,
    {
        let ghost v = profiles_view(profiles@);
        let n: usize = profiles.len();
        let mut i: usize = 0;
        while i < n
            invariant
                i <= n,
                n == profiles.len(),
                v == profiles_view(profiles@),
                forall|a: int, b: int|
                    0 <= a < b < n && a < i ==> (#[trigger] v[a]).owner != (#[trigger] v[b]).owner,
            decreases n - i,
        {
            let mut j: usize = i + 1;
            while j < n
                invariant
                    i < j <= n,
                    n == profiles.len(),
                    v == profiles_view(profiles@),
                    forall|b: int| i < b < j ==> v[i as int].owner != (#[trigger] v[b]).owner,
                decreases n - j,
            {
                if profiles[i].owner == profiles[j].owner {
                    assert(v[i as int].owner == v[j as int].owner);
                    return None;
                }
                j += 1;
            }
            i += 1;
        }
        Some(ProfileRegistry { profiles })
    }

    fn find(&self, owner: &String) -> (r: Option<usize>)
        ensures
            match r {
                Some(i) => owned_at(self@, owner@, i as int),
                None => !registered(self@, owner@),
            },
    {
        let mut i: usize = 0;
        while i < self.profiles.len()
            invariant
                i <= self.profiles.len(),
                forall|j: int| 0 <= j < i ==> !owned_at(self@, owner@, j),
            decreases self.profiles.len() - i,
        {
            if self.profiles[i].owner == *owner {
                return Some(i);
            }
            i += 1;
        }
        None
    }

    fn put(&mut self, i: usize, profile: BusinessProfile)
        requires
            old(self).wf(),
            i < old(self)@.len(),
            profile@.owner == old(self)@[i as int].owner,
        ensures
            final(self).wf(),
            final(self)@ == old(self)@.update(i as int, profile@),
    {
        let ghost before = self@;
        self.profiles.set(i, profile);
        proof {
            assert(self@ =~= before.update(i as int, profile@));
            assert forall|a: int, b: int| 0 <= a < b < self@.len() implies (#[trigger] self@[a]).owner
                != (#[trigger] self@[b]).owner by {
                assert(before[a].owner != before[b].owner);
            }
        }
    }
}

/// Registers the profile of `caller`, stamped `now`.
pub fn create_business_profile(
    registry: &mut ProfileRegistry,
    caller: &String,
    profile: BusinessProfile,
    now: u64,
) -> (r: Result<(), Error>)
    requires
        old(registry).wf(),
    ensures
        final(registry).wf(),
        match creation_refusal(old(registry)@, caller@, profile@) {
            Some(e) => r is Err && r->Err_0@ == e && final(registry)@ == old(registry)@,
            None => r is Ok && final(registry)@ == old(registry)@.push(
                ProfileView { created_at: now, updated_at: now, ..profile@ },
            ),
        },
{
    if !(profile.owner == *caller) {
        return Err(Error::NotAuthorized);
    }
    if !is_valid_phone_number(profile.phone_number.as_str()) {
        return Err(Error::InvalidInput(String::from_str("Invalid phone number format")));
    }
    if !is_valid_url(profile.website_url.as_str()) {
        return Err(Error::InvalidInput(String::from_str("Invalid website URL")));
    }
    if !is_valid_registration_number(profile.registration_number.as_str()) {
        return Err(Error::InvalidInput(String::from_str("Invalid registration number format")));
    }
    match registry.find(caller) {
        Some(_) => Err(Error::AlreadyExists),
        None => {
            let ghost before = registry@;
            let mut new_profile = profile;
            new_profile.created_at = now;
            new_profile.updated_at = now;
            registry.profiles.push(new_profile);
            proof {
                assert(registry@ =~= before.push(new_profile@));
                assert forall|a: int, b: int| 0 <= a < b < registry@.len() implies (
                #[trigger] registry@[a]).owner != (#[trigger] registry@[b]).owner by {
                    if b == before.len() {
                        assert(!owned_at(before, caller@, a));
                    } else {
                        assert(before[a].owner != before[b].owner);
                    }
                }
            }
            Ok(())
        },
    }
}

/// The profile of `owner`.
pub fn get_business_profile(registry: &ProfileRegistry, owner: &String) -> (r: Result<
    BusinessProfile,
    Error,
>)
    requires
        registry.wf(),
    ensures
        registered(registry@, owner@) ==> r is Ok && r->Ok_0@ == registry@[place_of(
            registry@,
            owner@,
        )],
        !registered(registry@, owner@) ==> r is Err && r->Err_0@ == ErrorView::NotFound,
{
    match registry.find(owner) {
        Some(i) => {
            proof {
                lemma_place_of(registry@, owner@, i as int);
            }
            Ok(registry.profiles[i].clone())
        },
        None => Err(Error::NotFound),
    }
}

/// Overwrites what the owner may change of its profile, stamped `now`.
pub fn update_business_profile(
    registry: &mut ProfileRegistry,
    caller: &String,
    profile: BusinessProfile,
    now: u64,
) -> (r: Result<(), Error>)
    requires
        old(registry).wf(),
    ensures
        final(registry).wf(),
        match update_refusal(old(registry)@, caller@, profile@) {
            Some(e) => r is Err && r->Err_0@ == e && final(registry)@ == old(registry)@,
            None => r is Ok && final(registry)@ == old(registry)@.update(
                place_of(old(registry)@, caller@),
                updated(old(registry)@[place_of(old(registry)@, caller@)], profile@, now),
            ),
        },
{
    if !(profile.owner == *caller) {
        return Err(Error::NotAuthorized);
    }
    match registry.find(caller) {
        Some(i) => {
            proof {
                lemma_place_of(registry@, caller@, i as int);
            }
            let mut existing = registry.profiles[i].clone();
            existing.business_name = profile.business_name;
            existing.business_type = profile.business_type;
            existing.business_category = profile.business_category;
            existing.country = profile.country;
            existing.address = profile.address;
            existing.registration_number = profile.registration_number;
            existing.logo_data = profile.logo_data;
            existing.phone_number = profile.phone_number;
            existing.website_url = profile.website_url;
            existing.updated_at = now;
            registry.put(i, existing);
            Ok(())
        },
        None => Err(Error::NotFound),
    }
}

/// Whether the list holds the step.
fn holds_step(steps: &Vec<u32>, step_id: u32) -> (r: bool)
    ensures
        r == steps@.contains(step_id),
{
    let mut i: usize = 0;
    while i < steps.len()
        invariant
            i <= steps.len(),
            forall|j: int| 0 <= j < i ==> steps@[j] != step_id,
        decreases steps.len() - i,
    {
        if steps[i] == step_id {
            return true;
        }
        i += 1;
    }
    false
}

/// Notes that `caller` has completed the step `step_id`.
pub fn save_completed_step(
    registry: &mut ProfileRegistry,
    caller: &String,
    step_id: u32,
    now: u64,
) -> (r: Result<(), Error>)
    requires
        old(registry).wf(),
    ensures
        final(registry).wf(),
        registered(old(registry)@, caller@) ==> r is Ok && final(registry)@ == old(registry)@.update(
            place_of(old(registry)@, caller@),
            with_step(old(registry)@[place_of(old(registry)@, caller@)], step_id, now),
        ),
        !registered(old(registry)@, caller@) ==> r is Err && r->Err_0@ == ErrorView::NotFound
            && final(registry)@ == old(registry)@,
{
    match registry.find(caller) {
        Some(i) => {
            proof {
                lemma_place_of(registry@, caller@, i as int);
            }
            if !holds_step(&registry.profiles[i].completed_steps, step_id) {
                let mut profile = registry.profiles[i].clone();
                profile.completed_steps.push(step_id);
                profile.updated_at = now;
                registry.put(i, profile);
            } else {
                assert(registry@ =~= registry@.update(i as int, registry@[i as int]));
            }
            Ok(())
        },
        None => Err(Error::NotFound),
    }
}

/// The steps that `owner` has completed, in the order of completion.
pub fn get_completed_steps(registry: &ProfileRegistry, owner: &String) -> (r: Result<
    Vec<u32>,
    Error,
>)
    requires
        registry.wf(),
    ensures
        registered(registry@, owner@) ==> r is Ok && r->Ok_0@ == registry@[place_of(
            registry@,
            owner@,
        )].completed_steps,
        !registered(registry@, owner@) ==> r is Err && r->Err_0@ == ErrorView::NotFound,
{
    match registry.find(owner) {
        Some(i) => {
            proof {
                lemma_place_of(registry@, owner@, i as int);
            }
            Ok(copy_steps(&registry.profiles[i].completed_steps))
        },
        None => Err(Error::NotFound),
    }
}

} // verus!
