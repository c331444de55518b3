//! Process configuration: port, 32-byte session key and database name, each
//! falling back to a built-in default when absent or (for the key) of the
//! wrong length. Constructed once at startup and passed by reference.

use vstd::prelude::*;

verus! {

/// The default port served when the configuration names none.
pub const DEFAULT_PORT: u16 = 3000;

/// The built-in 32-byte session key, used when the configuration names none
/// or names one whose length is not 32 bytes.
pub open spec fn default_key_spec() -> Seq<u8> {
    seq![
        115u8, 101u8, 99u8, 114u8, 101u8, 116u8, 49u8, 115u8, 101u8, 99u8, 114u8, 101u8, 116u8,
        50u8, 115u8, 101u8, 99u8, 114u8, 101u8, 116u8, 51u8, 115u8, 101u8, 99u8, 114u8, 101u8,
        116u8, 52u8, 97u8, 98u8, 99u8, 100u8,
    ]
}

/// The default database name used when the configuration names none.
pub open spec fn default_db_name() -> Seq<char> {
    "insecure.db"@
}

/// The built-in key as a vector.
pub fn default_key() -> (r: Vec<u8>)
    ensures
        r@ == default_key_spec(),
        r@.len() == 32,
{
    let r: Vec<u8> = vec![
        115u8, 101u8, 99u8, 114u8, 101u8, 116u8, 49u8, 115u8, 101u8, 99u8, 114u8, 101u8, 116u8,
        50u8, 115u8, 101u8, 99u8, 114u8, 101u8, 116u8, 51u8, 115u8, 101u8, 99u8, 114u8, 101u8,
        116u8, 52u8, 97u8, 98u8, 99u8, 100u8,
    ];
    proof {
        assert(r@ =~= default_key_spec());
    }
    r
}

/// Process-wide immutable configuration.
pub struct AppConfig {
    pub port: u16,
    pub key: Vec<u8>,
    pub db_name: String,
}

impl AppConfig {
    /// The session key has the 32 bytes the cipher demands.
    pub open spec fn wf(&self) -> bool {
        self.key@.len() == 32
    }

    /// Combines what a configuration source offered with the built-in
    /// defaults: a missing port, key or database name falls back to its
    /// default, and so does a key of any length other than 32 bytes.
    pub fn from_raw(port: Option<u16>, key: Option<Vec<u8>>, db_name: Option<String>) -> (r:
        AppConfig)
        ensures
            r.wf(),
            r.port == (match port {
                Some(p) => p,
                None => DEFAULT_PORT,
            }),
            r.key@ == (match key {
                Some(k) => if k@.len() == 32 {
                    k@
                } else {
                    default_key_spec()
                },
                None => default_key_spec(),
            }),
            r.db_name@ == (match db_name {
                Some(n) => n@,
                None => default_db_name(),
            }),
    {
        let port_v: u16 = match port {
            Some(p) => p,
            None => DEFAULT_PORT,
        };
        let key_v: Vec<u8> = match key {
            Some(k) => if k.len() == 32 {
                k
            } else {
                default_key()
            },
            None => default_key(),
        };
        let db_v: String = match db_name {
            Some(n) => n,
            None => String::from_str("insecure.db"),
        };
        AppConfig { port: port_v, key: key_v, db_name: db_v }
    }
}

} // verus!
