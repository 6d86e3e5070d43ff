//! The backend of an Envision profile: the WiVRn server of the profile's
//! prefix.

use crate::backends::envision::config::{EnvisionConfiguration, EnvisionUserProfile};
use crate::backends::wivrn::wivrn_backend::WiVRnBackend;
use crate::paths::{join_path, path_join};
use crate::text::str_equal;
use vstd::prelude::*;

verus! {

/// The text of a UUID in its usual form, lower-case and with hyphens, as
/// the uuid crate writes what it has parsed; `None` for a text that the
/// crate does not parse.
pub uninterp spec fn uuid_text(text: Seq<char>) -> Option<Seq<char>>;

/// Calls `Uuid::parse_str`, and writes the UUID as text again. What comes
/// out depends on the text alone.
#[verifier::external_body]
fn canonical_uuid(text: &str) -> (r: Option<String>)
    ensures
        match r {
            Some(u) => uuid_text(text@) == Some(u@),
            None => uuid_text(text@).is_none(),
        },
{
    match uuid::Uuid::parse_str(text) {
        Ok(u) => Some(u.to_string()),
        Err(_) => None,
    }
}

/// Why no backend was made.
#[derive(Debug, Clone, Copy, PartialEq, Eq, Structural)]
pub enum EnvisionError {
    /// No profile was named.
    MissingProfile,
    /// The profile's name is no UUID.
    InvalidUuid,
    /// The configuration has no profile with that UUID.
    ProfileNotFound,
}

/// The position of the first profile with the UUID `uuid`, from `i` on, or
/// the number of profiles.
pub open spec fn profile_position(profiles: Seq<EnvisionUserProfile>, uuid: Seq<char>, i: int) -> int
    decreases profiles.len() - i,
{
    if i < 0 || i >= profiles.len() || profiles[i].uuid@ == uuid {
        i
    } else {
        profile_position(profiles, uuid, i + 1)
    }
}

/// Where the WiVRn server of a profile is.
pub open spec fn server_path(profile: EnvisionUserProfile) -> Seq<char> {
    path_join(profile.prefix@, "bin/wivrn-server"@)
}

/// The backend of an Envision profile.
pub struct EnvisionBackend {
    pub wivrn_backend: WiVRnBackend,
    pub envision_profile: EnvisionUserProfile,
}

impl EnvisionBackend {
    /// The profile that `args` names. `args` is the UUID of the profile.
    pub fn select_profile(args: &str, config: EnvisionConfiguration) -> (r: Result<
        EnvisionUserProfile,
        EnvisionError,
    >)
        ensures
            match r {
                Ok(profile) => {
                    &&& args@.len() > 0
                    &&& uuid_text(args@).is_some()
                    &&& profile_position(config.user_profiles@, uuid_text(args@).unwrap(), 0)
                        < config.user_profiles@.len()
                    &&& profile == config.user_profiles@[profile_position(
                        config.user_profiles@,
                        uuid_text(args@).unwrap(),
                        0,
                    )]
                },
                Err(e) => e == (if args@.len() == 0 {
                    EnvisionError::MissingProfile
                } else if uuid_text(args@).is_none() {
                    EnvisionError::InvalidUuid
                } else {
                    EnvisionError::ProfileNotFound
                }) && (e == EnvisionError::ProfileNotFound ==> profile_position(
                    config.user_profiles@,
                    uuid_text(args@).unwrap(),
                    0,
                ) >= config.user_profiles@.len()),
            },
    {
        if args.unicode_len() == 0 {
            return Err(EnvisionError::MissingProfile);
        }
        let uuid = match canonical_uuid(args) {
            Some(u) => u,
            None => {
                return Err(EnvisionError::InvalidUuid);
            },
        };
        match Self::find_profile(uuid.as_str(), config) {
            Some(profile) => Ok(profile),
            None => Err(EnvisionError::ProfileNotFound),
        }
    }

    /// The first profile of the configuration with the UUID `uuid`.
    pub fn find_profile(uuid: &str, config: EnvisionConfiguration) -> (r: Option<
        EnvisionUserProfile,
    >)
        ensures
            r == (if profile_position(config.user_profiles@, uuid@, 0)
                < config.user_profiles@.len() {
                Some(config.user_profiles@[profile_position(config.user_profiles@, uuid@, 0)])
            } else {
                None
            }),
    {
        let mut profiles = config.user_profiles;
        let mut i: usize = 0;
        while i < profiles.len()
            invariant
                i <= profiles.len(),
                profiles@ == config.user_profiles@,
                profile_position(profiles@, uuid@, i as int) == profile_position(
                    profiles@,
                    uuid@,
                    0,
                ),
            decreases profiles.len() - i,
        {
            if str_equal(profiles[i].uuid.as_str(), uuid) {
                return Some(profiles.remove(i));
            }
            i = i + 1;
        }
        None
    }

    /// Where the WiVRn server of a profile is. The caller makes the
    /// backend where a server is there.
    pub fn server_binary(profile: &EnvisionUserProfile) -> (r: String)
        ensures
            r@ == server_path(*profile),
    {
        join_path(profile.prefix.as_str(), "bin/wivrn-server")
    }

    /// The backend of `profile`, whose server is at `server_binary_path`.
    pub fn new(profile: EnvisionUserProfile, server_binary_path: String) -> (b: EnvisionBackend)
        ensures
            b.envision_profile == profile,
            b.wivrn_backend.handle().is_none(),
            b.wivrn_backend.binary() == server_binary_path@,
    {
        EnvisionBackend {
            wivrn_backend: WiVRnBackend::new(server_binary_path),
            envision_profile: profile,
        }
    }
}

} // verus!
