//! Device identity resolution.
//!
//! A node carries one immutable identity triple: an 8-byte device unique
//! id, an 8-byte application id and a 16-byte application key.  Each of
//! the three may be overridden at build time; an absent override falls
//! back to an all-zero default.

use vstd::prelude::*;

verus! {

broadcast use vstd::array::group_array_axioms;

/// True when every byte of `s` is zero.
pub open spec fn all_zero(s: Seq<u8>) -> bool {
    forall|i: int| 0 <= i < s.len() ==> s[i] == 0
}

/// The byte sequence an 8-byte override resolves to: the override when
/// present, the all-zero default when absent.
pub open spec fn resolved8(o: Option<[u8; 8]>) -> Seq<u8> {
    match o {
        Option::Some(v) => v@,
        Option::None => Seq::new(8, |i: int| 0u8),
    }
}

/// The byte sequence a 16-byte override resolves to: the override when
/// present, the all-zero default when absent.
pub open spec fn resolved16(o: Option<[u8; 16]>) -> Seq<u8> {
    match o {
        Option::Some(v) => v@,
        Option::None => Seq::new(16, |i: int| 0u8),
    }
}

/// The identity triple used by the join handshake, immutable for the
/// process lifetime.
pub struct DeviceIdentity {
    pub dev_eui: [u8; 8],
    pub app_eui: [u8; 8],
    pub app_key: [u8; 16],
}

impl DeviceIdentity {
    /// Resolve the three build-time overrides into the identity used for
    /// the join call: each value equals its override when one is present
    /// and the all-zero default when it is absent.
    pub fn resolve(
        dev_eui_override: Option<[u8; 8]>,
        app_eui_override: Option<[u8; 8]>,
        app_key_override: Option<[u8; 16]>,
    ) -> (r: DeviceIdentity)
        ensures
            r.dev_eui@ == resolved8(dev_eui_override),
            r.app_eui@ == resolved8(app_eui_override),
            r.app_key@ == resolved16(app_key_override),
    {
        let dev_eui = match dev_eui_override {
            Option::Some(v) => v,
            Option::None => [0u8; 8],
        };
        let app_eui = match app_eui_override {
            Option::Some(v) => v,
            Option::None => [0u8; 8],
        };
        let app_key = match app_key_override {
            Option::Some(v) => v,
            Option::None => [0u8; 16],
        };
        proof {
            assert(dev_eui@ =~= resolved8(dev_eui_override));
            assert(app_eui@ =~= resolved8(app_eui_override));
            assert(app_key@ =~= resolved16(app_key_override));
        }
        DeviceIdentity { dev_eui, app_eui, app_key }
    }

    /// An absent override resolves to bytes that are all zero.
    pub proof fn lemma_absent_override_is_all_zero()
        ensures
            all_zero(resolved8(Option::<[u8; 8]>::None)),
            all_zero(resolved16(Option::<[u8; 16]>::None)),
    {
    }

    /// A present override resolves to exactly the override value.
    pub proof fn lemma_present_override_is_kept(v8: [u8; 8], v16: [u8; 16])
        ensures
            resolved8(Option::Some(v8)) == v8@,
            resolved16(Option::Some(v16)) == v16@,
    {
    }
}

} // verus!
