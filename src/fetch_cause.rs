//! Where a fetch of repository data originated.
use vstd::prelude::*;

verus! {

#[derive(Debug, Copy, Clone, PartialEq, Eq, Structural)]
pub enum FetchCause {
    /// Unknown origination from EdenFS.
    EdenUnknown,
    /// A prefetch endpoint of EdenFS's Thrift service.
    EdenPrefetch,
    /// Another endpoint of EdenFS's Thrift service.
    EdenThrift,
    /// The filesystem (FUSE, NFS or PrjFS).
    EdenFs,
    /// Mixed EdenFS causes.
    EdenMixed,
    /// A Sapling prefetch.
    SaplingPrefetch,
    /// Unknown origination from Sapling.
    SaplingUnknown,
    /// Unknown origination, usually Sapling (the default).
    Unspecified,
}

/// The name under which a fetch cause is written and parsed.
pub open spec fn fetch_cause_name(c: FetchCause) -> Seq<char> {
    match c {
        FetchCause::EdenUnknown => "edenfs-unknown"@,
        FetchCause::EdenPrefetch => "edenfs-prefetch"@,
        FetchCause::EdenThrift => "edenfs-thrift"@,
        FetchCause::EdenFs => "edenfs-fs"@,
        FetchCause::EdenMixed => "edenfs-mixed"@,
        FetchCause::SaplingPrefetch => "sl-prefetch"@,
        FetchCause::SaplingUnknown => "sl-unknown"@,
        FetchCause::Unspecified => "unspecified"@,
    }
}

/// The text is no fetch cause's name.
#[derive(Debug, Copy, Clone, PartialEq, Eq, Structural)]
pub enum InvalidFetchCause {
    Unknown,
}

impl FetchCause {
    pub fn to_str(&self) -> (r: &'static str)
        ensures
            r@ == fetch_cause_name(*self),
    {
        match self {
            FetchCause::EdenUnknown => "edenfs-unknown",
            FetchCause::EdenPrefetch => "edenfs-prefetch",
            FetchCause::EdenThrift => "edenfs-thrift",
            FetchCause::EdenFs => "edenfs-fs",
            FetchCause::EdenMixed => "edenfs-mixed",
            FetchCause::SaplingPrefetch => "sl-prefetch",
            FetchCause::SaplingUnknown => "sl-unknown",
            FetchCause::Unspecified => "unspecified",
        }
    }

    /// The fetch cause called `s`.
    pub fn parse(s: &str) -> (r: Result<FetchCause, InvalidFetchCause>)
        ensures
            r is Ok ==> fetch_cause_name(r.unwrap()) == s@,
            r is Err ==> forall|c: FetchCause| fetch_cause_name(c) != s@,
    {
        let all = [
            FetchCause::EdenUnknown,
            FetchCause::EdenPrefetch,
            FetchCause::EdenThrift,
            FetchCause::EdenFs,
            FetchCause::EdenMixed,
            FetchCause::SaplingPrefetch,
            FetchCause::SaplingUnknown,
            FetchCause::Unspecified,
        ];
        let wanted = s.to_owned();
        let mut i: usize = 0;
        while i < 8
            invariant
                i <= 8,
                all@.len() == 8,
                wanted@ == s@,
                forall|k: int| 0 <= k < i ==> fetch_cause_name(#[trigger] all@[k]) != s@,
            decreases 8 - i,
        {
            if all[i].to_str().to_owned() == wanted {
                return Ok(all[i]);
            }
            i = i + 1;
        }
        assert forall|c: FetchCause| fetch_cause_name(c) != s@ by {
            let k: int = match c {
                FetchCause::EdenUnknown => 0,
                FetchCause::EdenPrefetch => 1,
                FetchCause::EdenThrift => 2,
                FetchCause::EdenFs => 3,
                FetchCause::EdenMixed => 4,
                FetchCause::SaplingPrefetch => 5,
                FetchCause::SaplingUnknown => 6,
                FetchCause::Unspecified => 7,
            };
            assert(all@[k] == c);
        }
        Err(InvalidFetchCause::Unknown)
    }
}

impl std::str::FromStr for FetchCause {
    type Err = InvalidFetchCause;

    fn from_str(s: &str) -> Result<FetchCause, InvalidFetchCause> {
        FetchCause::parse(s)
    }
}

} // verus!
