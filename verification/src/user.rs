use vstd::prelude::*;

verus! {

/// The abstract contents of a watermark.
pub ghost struct WatermarkView {
    pub app_id: Seq<char>,
    pub timestamp: u64,
}

/// The watermark the issuer stamps on decrypted payloads: the program's
/// app id and the instant the payload was produced.
#[derive(Debug, Clone)]
pub struct Watermark {
    app_id: String,
    timestamp: u64,
}

impl View for Watermark {
    type V = WatermarkView;

    closed spec fn view(&self) -> WatermarkView {
        WatermarkView { app_id: self.app_id@, timestamp: self.timestamp }
    }
}

impl Watermark {
    /// The program's app id.
    pub fn app_id(&self) -> (r: &str)
        ensures
            r@ == self@.app_id,
    {
        self.app_id.as_str()
    }

    /// The instant the payload was produced.
    pub fn timestamp(&self) -> (r: u64)
        ensures
            r == self@.timestamp,
    {
        self.timestamp
    }
}

/// The raw fields of a watermark as a payload delivers them.
#[derive(Debug, Clone)]
pub struct WatermarkBuilder {
    pub app_id: String,
    pub timestamp: u64,
}

impl WatermarkBuilder {
    /// Assembles the watermark, carrying both fields through unchanged.
    pub fn build(self) -> (r: Watermark)
        ensures
            r@.app_id == self.app_id@,
            r@.timestamp == self.timestamp,
    {
        Watermark { app_id: self.app_id, timestamp: self.timestamp }
    }
}

/// The abstract contents of a user profile.
pub ghost struct UserView {
    pub nickname: Seq<char>,
    pub gender: u8,
    pub country: Seq<char>,
    pub province: Seq<char>,
    pub city: Seq<char>,
    pub avatar: Seq<char>,
    pub watermark: WatermarkView,
}

/// A user profile as decrypted from an encrypted payload.
#[derive(Debug, Clone)]
pub struct User {
    nickname: String,
    gender: u8,
    country: String,
    province: String,
    city: String,
    avatar: String,
    watermark: Watermark,
}

impl View for User {
    type V = UserView;

    closed spec fn view(&self) -> UserView {
        UserView {
            nickname: self.nickname@,
            gender: self.gender,
            country: self.country@,
            province: self.province@,
            city: self.city@,
            avatar: self.avatar@,
            watermark: self.watermark@,
        }
    }
}

impl User {
    /// The user's nickname.
    pub fn nickname(&self) -> (r: &str)
        ensures
            r@ == self@.nickname,
    {
        self.nickname.as_str()
    }

    /// The user's declared gender code.
    pub fn gender(&self) -> (r: u8)
        ensures
            r == self@.gender,
    {
        self.gender
    }

    /// The user's declared country.
    pub fn country(&self) -> (r: &str)
        ensures
            r@ == self@.country,
    {
        self.country.as_str()
    }

    /// The user's declared province.
    pub fn province(&self) -> (r: &str)
        ensures
            r@ == self@.province,
    {
        self.province.as_str()
    }

    /// The user's declared city.
    pub fn city(&self) -> (r: &str)
        ensures
            r@ == self@.city,
    {
        self.city.as_str()
    }

    /// The user's avatar address.
    pub fn avatar(&self) -> (r: &str)
        ensures
            r@ == self@.avatar,
    {
        self.avatar.as_str()
    }

    /// The app id stamped on the payload's watermark.
    pub fn app_id(&self) -> (r: &str)
        ensures
            r@ == self@.watermark.app_id,
    {
        self.watermark.app_id()
    }

    /// The instant stamped on the payload's watermark.
    pub fn timestamp(&self) -> (r: u64)
        ensures
            r == self@.watermark.timestamp,
    {
        self.watermark.timestamp()
    }
}

/// The raw fields of a user profile as a payload delivers them.
#[derive(Debug, Clone)]
pub struct UserBuilder {
    pub nickname: String,
    pub gender: u8,
    pub country: String,
    pub province: String,
    pub city: String,
    pub avatar: String,
    pub watermark: WatermarkBuilder,
}

impl UserBuilder {
    /// Assembles the profile, carrying every field through unchanged.
    pub fn build(self) -> (r: User)
        ensures
            r@.nickname == self.nickname@,
            r@.gender == self.gender,
            r@.country == self.country@,
            r@.province == self.province@,
            r@.city == self.city@,
            r@.avatar == self.avatar@,
            r@.watermark.app_id == self.watermark.app_id@,
            r@.watermark.timestamp == self.watermark.timestamp,
    {
        User {
            nickname: self.nickname,
            gender: self.gender,
            country: self.country,
            province: self.province,
            city: self.city,
            avatar: self.avatar,
            watermark: self.watermark.build(),
        }
    }
}

/// The abstract contents of a contact record.
pub ghost struct ContactView {
    pub phone: Seq<char>,
    pub pure_phone: Seq<char>,
    pub country_code: Seq<char>,
    pub watermark: WatermarkView,
}

/// A user's contact record: the phone number with and without its country
/// code, the code itself, and the payload's watermark.
#[derive(Debug, Clone)]
pub struct Contact {
    phone: String,
    pure_phone: String,
    country_code: String,
    watermark: Watermark,
}

impl View for Contact {
    type V = ContactView;

    closed spec fn view(&self) -> ContactView {
        ContactView {
            phone: self.phone@,
            pure_phone: self.pure_phone@,
            country_code: self.country_code@,
            watermark: self.watermark@,
        }
    }
}

impl Contact {
    /// The phone number, country code included.
    pub fn phone(&self) -> (r: &str)
        ensures
            r@ == self@.phone,
    {
        self.phone.as_str()
    }

    /// The phone number without its country code.
    pub fn pure_phone(&self) -> (r: &str)
        ensures
            r@ == self@.pure_phone,
    {
        self.pure_phone.as_str()
    }

    /// The country code of the phone number.
    pub fn country_code(&self) -> (r: &str)
        ensures
            r@ == self@.country_code,
    {
        self.country_code.as_str()
    }

    /// The app id stamped on the payload's watermark.
    pub fn app_id(&self) -> (r: &str)
        ensures
            r@ == self@.watermark.app_id,
    {
        self.watermark.app_id()
    }

    /// The instant stamped on the payload's watermark.
    pub fn timestamp(&self) -> (r: u64)
        ensures
            r == self@.watermark.timestamp,
    {
        self.watermark.timestamp()
    }
}

/// The raw fields of a contact record as a payload delivers them.
#[derive(Debug, Clone)]
pub struct ContactBuilder {
    pub phone: String,
    pub pure_phone: String,
    pub country_code: String,
    pub watermark: WatermarkBuilder,
}

impl ContactBuilder {
    /// Assembles the contact record, carrying every field through unchanged.
    pub fn build(self) -> (r: Contact)
        ensures
            r@.phone == self.phone@,
            r@.pure_phone == self.pure_phone@,
            r@.country_code == self.country_code@,
            r@.watermark.app_id == self.watermark.app_id@,
            r@.watermark.timestamp == self.watermark.timestamp,
    {
        Contact {
            phone: self.phone,
            pure_phone: self.pure_phone,
            country_code: self.country_code,
            watermark: self.watermark.build(),
        }
    }
}

/// The abstract contents of a decrypted user-info payload.
pub ghost struct UserInfoView {
    pub nick_name: Seq<char>,
    pub gender: u8,
    pub city: Seq<char>,
    pub province: Seq<char>,
    pub country: Seq<char>,
    pub avatar_url: Seq<char>,
    pub watermark: WatermarkView,
}

/// A decrypted user-info payload, as the embedding service stores it.
#[derive(Debug, Clone)]
pub struct UserInfo {
    nick_name: String,
    gender: u8,
    city: String,
    province: String,
    country: String,
    avatar_url: String,
    watermark: Watermark,
}

impl View for UserInfo {
    type V = UserInfoView;

    closed spec fn view(&self) -> UserInfoView {
        UserInfoView {
            nick_name: self.nick_name@,
            gender: self.gender,
            city: self.city@,
            province: self.province@,
            country: self.country@,
            avatar_url: self.avatar_url@,
            watermark: self.watermark@,
        }
    }
}

impl UserInfo {
    /// Stores every field unchanged.
    pub fn new(
        nick_name: String,
        gender: u8,
        city: String,
        province: String,
        country: String,
        avatar_url: String,
        watermark: Watermark,
    ) -> (r: UserInfo)
        ensures
            r@.nick_name == nick_name@,
            r@.gender == gender,
            r@.city == city@,
            r@.province == province@,
            r@.country == country@,
            r@.avatar_url == avatar_url@,
            r@.watermark == watermark@,
    {
        UserInfo { nick_name, gender, city, province, country, avatar_url, watermark }
    }

    /// The user's nickname.
    pub fn nick_name(&self) -> (r: &str)
        ensures
            r@ == self@.nick_name,
    {
        self.nick_name.as_str()
    }

    /// The user's declared gender code.
    pub fn gender(&self) -> (r: u8)
        ensures
            r == self@.gender,
    {
        self.gender
    }

    /// The user's declared city.
    pub fn city(&self) -> (r: &str)
        ensures
            r@ == self@.city,
    {
        self.city.as_str()
    }

    /// The user's declared province.
    pub fn province(&self) -> (r: &str)
        ensures
            r@ == self@.province,
    {
        self.province.as_str()
    }

    /// The user's declared country.
    pub fn country(&self) -> (r: &str)
        ensures
            r@ == self@.country,
    {
        self.country.as_str()
    }

    /// The user's avatar address.
    pub fn avatar_url(&self) -> (r: &str)
        ensures
            r@ == self@.avatar_url,
    {
        self.avatar_url.as_str()
    }

    /// The payload's watermark.
    pub fn watermark(&self) -> (r: &Watermark)
        ensures
            r@ == self@.watermark,
    {
        &self.watermark
    }

    /// The app id stamped on the payload's watermark.
    pub fn app_id(&self) -> (r: &str)
        ensures
            r@ == self@.watermark.app_id,
    {
        self.watermark.app_id()
    }

    /// The instant stamped on the payload's watermark.
    pub fn timestamp(&self) -> (r: u64)
        ensures
            r == self@.watermark.timestamp,
    {
        self.watermark.timestamp()
    }
}

/// The abstract contents of a decrypted phone-info payload.
pub ghost struct PhoneInfoView {
    pub phone_number: Seq<char>,
    pub pure_phone_number: Seq<char>,
    pub country_code: Seq<char>,
    pub watermark: WatermarkView,
}

/// A decrypted phone-info payload, as the embedding service stores it.
#[derive(Debug, Clone)]
pub struct PhoneInfo {
    phone_number: String,
    pure_phone_number: String,
    country_code: String,
    watermark: Watermark,
}

impl View for PhoneInfo {
    type V = PhoneInfoView;

    closed spec fn view(&self) -> PhoneInfoView {
        PhoneInfoView {
            phone_number: self.phone_number@,
            pure_phone_number: self.pure_phone_number@,
            country_code: self.country_code@,
            watermark: self.watermark@,
        }
    }
}

impl PhoneInfo {
    /// Stores every field unchanged.
    pub fn new(
        phone_number: String,
        pure_phone_number: String,
        country_code: String,
        watermark: Watermark,
    ) -> (r: PhoneInfo)
        ensures
            r@.phone_number == phone_number@,
            r@.pure_phone_number == pure_phone_number@,
            r@.country_code == country_code@,
            r@.watermark == watermark@,
    {
        PhoneInfo { phone_number, pure_phone_number, country_code, watermark }
    }

    /// The phone number, country code included.
    pub fn phone_number(&self) -> (r: &str)
        ensures
            r@ == self@.phone_number,
    {
        self.phone_number.as_str()
    }

    /// The phone number without its country code.
    pub fn pure_phone_number(&self) -> (r: &str)
        ensures
            r@ == self@.pure_phone_number,
    {
        self.pure_phone_number.as_str()
    }

    /// The country code of the phone number.
    pub fn country_code(&self) -> (r: &str)
        ensures
            r@ == self@.country_code,
    {
        self.country_code.as_str()
    }

    /// The payload's watermark.
    pub fn watermark(&self) -> (r: &Watermark)
        ensures
            r@ == self@.watermark,
    {
        &self.watermark
    }
}

} // verus!
