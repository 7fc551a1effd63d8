use vstd::prelude::*;

verus! {

/// A record that carries a user's identifier: what a store keys its records by.
pub trait UserRecord: Sized {
    /// The identifier of the user the record belongs to.
    spec fn record_id(&self) -> Seq<char>;

    /// Returns the identifier of the user the record belongs to.
    fn user_id(&self) -> (r: String)
        ensures
            r@ == self.record_id(),
    ;

    /// Returns a copy of the record.
    fn copy_record(&self) -> (r: Self)
        ensures
            r == *self,
    ;
}

/// Represents a user of a splinter application.
pub struct SplinterUser {
    id: String,
}

impl View for SplinterUser {
    type V = Seq<char>;

    /// A user is known by its identifier alone.
    closed spec fn view(&self) -> Seq<char> {
        self.id@
    }
}

impl SplinterUser {
    /// Creates a new user with the identifier `user_id`.
    ///
    /// No uniqueness check is made here: a store enforces uniqueness when it persists the user.
    pub fn new(user_id: &str) -> (r: SplinterUser)
        ensures
            r@ == user_id@,
    {
        SplinterUser { id: user_id.to_string() }
    }

    /// Returns the user's id.
    pub fn id(&self) -> (r: String)
        ensures
            r@ == self@,
    {
        self.id.clone()
    }
}

/// The persisted shape of a user.
pub struct UserModel {
    pub id: String,
}

impl UserRecord for UserModel {
    open spec fn record_id(&self) -> Seq<char> {
        self.id@
    }

    fn user_id(&self) -> (r: String) {
        self.id.clone()
    }

    fn copy_record(&self) -> (r: UserModel) {
        UserModel { id: self.id.clone() }
    }
}

impl From<UserModel> for SplinterUser {
    fn from(user: UserModel) -> (r: SplinterUser)
        ensures
            r@ == user.id@,
    {
        SplinterUser { id: user.id }
    }
}

impl vstd::std_specs::convert::FromSpecImpl<UserModel> for SplinterUser {
    open spec fn obeys_from_spec() -> bool {
        true
    }

    closed spec fn from_spec(user: UserModel) -> SplinterUser {
        SplinterUser { id: user.id }
    }
}

impl From<SplinterUser> for UserModel {
    fn from(user: SplinterUser) -> (r: UserModel)
        ensures
            r.id@ == user@,
    {
        UserModel { id: user.id }
    }
}

impl vstd::std_specs::convert::FromSpecImpl<SplinterUser> for UserModel {
    open spec fn obeys_from_spec() -> bool {
        true
    }

    closed spec fn from_spec(user: SplinterUser) -> UserModel {
        UserModel { id: user.id }
    }
}

/// A persisted user that carries a display name beside its identifier.
///
/// A user made from it keeps the identifier alone.
pub struct ProfileModel {
    pub id: String,
    pub display_name: String,
}

impl UserRecord for ProfileModel {
    open spec fn record_id(&self) -> Seq<char> {
        self.id@
    }

    fn user_id(&self) -> (r: String) {
        self.id.clone()
    }

    fn copy_record(&self) -> (r: ProfileModel) {
        ProfileModel { id: self.id.clone(), display_name: self.display_name.clone() }
    }
}

impl From<ProfileModel> for SplinterUser {
    fn from(profile: ProfileModel) -> (r: SplinterUser)
        ensures
            r@ == profile.id@,
    {
        SplinterUser { id: profile.id }
    }
}

impl vstd::std_specs::convert::FromSpecImpl<ProfileModel> for SplinterUser {
    open spec fn obeys_from_spec() -> bool {
        true
    }

    closed spec fn from_spec(profile: ProfileModel) -> SplinterUser {
        SplinterUser { id: profile.id }
    }
}

/// Turning a persisted record into a user and back gives the record again.
pub proof fn lemma_model_round_trip(model: UserModel)
    ensures
        <UserModel as vstd::std_specs::convert::FromSpec<SplinterUser>>::from_spec(
            <SplinterUser as vstd::std_specs::convert::FromSpec<UserModel>>::from_spec(model),
        ) == model,
        <SplinterUser as vstd::std_specs::convert::FromSpec<UserModel>>::from_spec(model)@
            == model.id@,
{
}

/// Turning a user into a persisted record and back gives the user again.
pub proof fn lemma_user_round_trip(user: SplinterUser)
    ensures
        <SplinterUser as vstd::std_specs::convert::FromSpec<UserModel>>::from_spec(
            <UserModel as vstd::std_specs::convert::FromSpec<SplinterUser>>::from_spec(user),
        ) == user,
        <UserModel as vstd::std_specs::convert::FromSpec<SplinterUser>>::from_spec(user).id@
            == user@,
{
}

} // verus!
