//! Browser and operating-system properties sent with an Identify payload.

use rand::seq::SliceRandom;
use vstd::prelude::*;
use vstd::string::*;
use crate::text::{copy_opt_string, opt_string_view};

verus! {

/// Browser/OS fingerprint properties sent in the Identify payload.
#[derive(Debug, Clone)]
pub struct Fingerprint {
    pub os: String,
    pub browser: String,
    pub device: String,
    pub system_locale: String,
    pub browser_user_agent: String,
    pub browser_version: String,
    pub os_version: String,
    pub referrer: String,
    pub referring_domain: String,
    pub referrer_current: String,
    pub referring_domain_current: String,
    pub release_channel: String,
    pub client_build_number: u64,
    pub client_event_source: Option<String>,
}

/// The mathematical value of a [`Fingerprint`].
pub struct FingerprintView {
    pub os: Seq<char>,
    pub browser: Seq<char>,
    pub device: Seq<char>,
    pub system_locale: Seq<char>,
    pub browser_user_agent: Seq<char>,
    pub browser_version: Seq<char>,
    pub os_version: Seq<char>,
    pub referrer: Seq<char>,
    pub referring_domain: Seq<char>,
    pub referrer_current: Seq<char>,
    pub referring_domain_current: Seq<char>,
    pub release_channel: Seq<char>,
    pub client_build_number: u64,
    pub client_event_source: Option<Seq<char>>,
}

impl View for Fingerprint {
    type V = FingerprintView;

    open spec fn view(&self) -> FingerprintView {
        FingerprintView {
            os: self.os@,
            browser: self.browser@,
            device: self.device@,
            system_locale: self.system_locale@,
            browser_user_agent: self.browser_user_agent@,
            browser_version: self.browser_version@,
            os_version: self.os_version@,
            referrer: self.referrer@,
            referring_domain: self.referring_domain@,
            referrer_current: self.referrer_current@,
            referring_domain_current: self.referring_domain_current@,
            release_channel: self.release_channel@,
            client_build_number: self.client_build_number,
            client_event_source: opt_string_view(self.client_event_source),
        }
    }
}

impl Fingerprint {
    /// A copy of this fingerprint with the same contents.
    pub fn duplicate(&self) -> (r: Fingerprint)
        ensures
            r@ == self@,
    {
        Fingerprint {
            os: self.os.clone(),
            browser: self.browser.clone(),
            device: self.device.clone(),
            system_locale: self.system_locale.clone(),
            browser_user_agent: self.browser_user_agent.clone(),
            browser_version: self.browser_version.clone(),
            os_version: self.os_version.clone(),
            referrer: self.referrer.clone(),
            referring_domain: self.referring_domain.clone(),
            referrer_current: self.referrer_current.clone(),
            referring_domain_current: self.referring_domain_current.clone(),
            release_channel: self.release_channel.clone(),
            client_build_number: self.client_build_number,
            client_event_source: copy_opt_string(&self.client_event_source),
        }
    }
}

/// One Chrome user-agent profile of the pool that a session picks from.
pub struct UserAgentProfile {
    pub user_agent: &'static str,
    pub browser_version: &'static str,
    pub os: &'static str,
    pub os_version: &'static str,
}

/// The mathematical value of a [`UserAgentProfile`].
pub struct UserAgentProfileView {
    pub user_agent: Seq<char>,
    pub browser_version: Seq<char>,
    pub os: Seq<char>,
    pub os_version: Seq<char>,
}

impl View for UserAgentProfile {
    type V = UserAgentProfileView;

    open spec fn view(&self) -> UserAgentProfileView {
        UserAgentProfileView {
            user_agent: self.user_agent@,
            browser_version: self.browser_version@,
            os: self.os@,
            os_version: self.os_version@,
        }
    }
}

/// Number of profiles in the user-agent pool.
pub const UA_POOL_LEN: usize = 6;

/// A profile built from its four texts.
pub open spec fn spec_profile(
    user_agent: &str,
    browser_version: &str,
    os: &str,
    os_version: &str,
) -> UserAgentProfileView {
    UserAgentProfileView {
        user_agent: user_agent@,
        browser_version: browser_version@,
        os: os@,
        os_version: os_version@,
    }
}

/// The `i`-th profile of the pool: Chrome 122 and 123 on Windows 10,
/// macOS 10.15.7 and Linux, in that order.
pub open spec fn spec_ua_profile(i: int) -> UserAgentProfileView {
    if i == 0 {
        spec_profile(
            "Mozilla/5.0 (Windows NT 10.0; Win64; x64) AppleWebKit/537.36 (KHTML, like Gecko) Chrome/122.0.0.0 Safari/537.36",
            "122.0.0.0",
            "Windows",
            "10",
        )
    } else if i == 1 {
        spec_profile(
            "Mozilla/5.0 (Windows NT 10.0; Win64; x64) AppleWebKit/537.36 (KHTML, like Gecko) Chrome/123.0.0.0 Safari/537.36",
            "123.0.0.0",
            "Windows",
            "10",
        )
    } else if i == 2 {
        spec_profile(
            "Mozilla/5.0 (Macintosh; Intel Mac OS X 10_15_7) AppleWebKit/537.36 (KHTML, like Gecko) Chrome/122.0.0.0 Safari/537.36",
            "122.0.0.0",
            "Mac OS X",
            "10.15.7",
        )
    } else if i == 3 {
        spec_profile(
            "Mozilla/5.0 (Macintosh; Intel Mac OS X 10_15_7) AppleWebKit/537.36 (KHTML, like Gecko) Chrome/123.0.0.0 Safari/537.36",
            "123.0.0.0",
            "Mac OS X",
            "10.15.7",
        )
    } else if i == 4 {
        spec_profile(
            "Mozilla/5.0 (X11; Linux x86_64) AppleWebKit/537.36 (KHTML, like Gecko) Chrome/122.0.0.0 Safari/537.36",
            "122.0.0.0",
            "Linux",
            "",
        )
    } else {
        spec_profile(
            "Mozilla/5.0 (X11; Linux x86_64) AppleWebKit/537.36 (KHTML, like Gecko) Chrome/123.0.0.0 Safari/537.36",
            "123.0.0.0",
            "Linux",
            "",
        )
    }
}

/// The `i`-th profile of the user-agent pool.
pub fn ua_profile(i: usize) -> (p: UserAgentProfile)
    requires
        i < UA_POOL_LEN,
    ensures
        p@ == spec_ua_profile(i as int),
{
    if i == 0 {
        UserAgentProfile {
            user_agent: "Mozilla/5.0 (Windows NT 10.0; Win64; x64) AppleWebKit/537.36 (KHTML, like Gecko) Chrome/122.0.0.0 Safari/537.36",
            browser_version: "122.0.0.0",
            os: "Windows",
            os_version: "10",
        }
    } else if i == 1 {
        UserAgentProfile {
            user_agent: "Mozilla/5.0 (Windows NT 10.0; Win64; x64) AppleWebKit/537.36 (KHTML, like Gecko) Chrome/123.0.0.0 Safari/537.36",
            browser_version: "123.0.0.0",
            os: "Windows",
            os_version: "10",
        }
    } else if i == 2 {
        UserAgentProfile {
            user_agent: "Mozilla/5.0 (Macintosh; Intel Mac OS X 10_15_7) AppleWebKit/537.36 (KHTML, like Gecko) Chrome/122.0.0.0 Safari/537.36",
            browser_version: "122.0.0.0",
            os: "Mac OS X",
            os_version: "10.15.7",
        }
    } else if i == 3 {
        UserAgentProfile {
            user_agent: "Mozilla/5.0 (Macintosh; Intel Mac OS X 10_15_7) AppleWebKit/537.36 (KHTML, like Gecko) Chrome/123.0.0.0 Safari/537.36",
            browser_version: "123.0.0.0",
            os: "Mac OS X",
            os_version: "10.15.7",
        }
    } else if i == 4 {
        UserAgentProfile {
            user_agent: "Mozilla/5.0 (X11; Linux x86_64) AppleWebKit/537.36 (KHTML, like Gecko) Chrome/122.0.0.0 Safari/537.36",
            browser_version: "122.0.0.0",
            os: "Linux",
            os_version: "",
        }
    } else {
        UserAgentProfile {
            user_agent: "Mozilla/5.0 (X11; Linux x86_64) AppleWebKit/537.36 (KHTML, like Gecko) Chrome/123.0.0.0 Safari/537.36",
            browser_version: "123.0.0.0",
            os: "Linux",
            os_version: "",
        }
    }
}

/// The fingerprint built from the `i`-th pool profile and a client build number.
pub open spec fn spec_fingerprint(i: int, build_number: u64) -> FingerprintView {
    let p = spec_ua_profile(i);
    FingerprintView {
        os: p.os,
        browser: "Chrome"@,
        device: Seq::empty(),
        system_locale: "en-US"@,
        browser_user_agent: p.user_agent,
        browser_version: p.browser_version,
        os_version: p.os_version,
        referrer: Seq::empty(),
        referring_domain: Seq::empty(),
        referrer_current: Seq::empty(),
        referring_domain_current: Seq::empty(),
        release_channel: "stable"@,
        client_build_number: build_number,
        client_event_source: None,
    }
}

/// Builds the fingerprint of the `index`-th pool profile for a client build number.
pub fn fingerprint_for_profile(index: usize, build_number: u64) -> (fp: Fingerprint)
    requires
        index < UA_POOL_LEN,
    ensures
        fp@ == spec_fingerprint(index as int, build_number),
{
    let profile = ua_profile(index);
    Fingerprint {
        os: String::from_str(profile.os),
        browser: String::from_str("Chrome"),
        device: String::new(),
        system_locale: String::from_str("en-US"),
        browser_user_agent: String::from_str(profile.user_agent),
        browser_version: String::from_str(profile.browser_version),
        os_version: String::from_str(profile.os_version),
        referrer: String::new(),
        referring_domain: String::new(),
        referrer_current: String::new(),
        referring_domain_current: String::new(),
        release_channel: String::from_str("stable"),
        client_build_number: build_number,
        client_event_source: None,
    }
}

/// Calls `rand::seq::SliceRandom::choose` on `candidates` with the thread-local
/// generator. The contract claims only what holds of every outcome: `None`
/// exactly when the slice is empty, otherwise one of its elements.
#[verifier::external_body]
fn choose_one(candidates: &[usize]) -> (r: Option<usize>)
    ensures
        r is None <==> candidates@.len() == 0,
        r matches Some(x) ==> candidates@.contains(x),
{
    candidates.choose(&mut rand::thread_rng()).copied()
}

/// Selects a random profile from the pool and builds the session's fingerprint
/// with the given client build number.
pub fn select_fingerprint(build_number: u64) -> (fp: Fingerprint)
    ensures
        exists|i: int| 0 <= i < UA_POOL_LEN && fp@ == spec_fingerprint(i, build_number),
{
    let indices: [usize; 6] = [0, 1, 2, 3, 4, 5];
    let chosen = choose_one(&indices);
    let index = match chosen {
        Some(i) => i,
        None => 0,
    };
    assert(index < UA_POOL_LEN) by {
        if chosen is Some {
            let k = choose|k: int| 0 <= k < indices@.len() && indices@[k] == index;
            assert(indices@[k] < 6);
        }
    }
    let fp = fingerprint_for_profile(index, build_number);
    assert(0 <= index < UA_POOL_LEN && fp@ == spec_fingerprint(index as int, build_number));
    fp
}

} // verus!
