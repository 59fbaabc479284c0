//! Read-only queries on the host's user and group database, with a cache
//! that remembers every answer, found or not, by ID and by name.
//!
//! The database itself is reached through [`IdentitySource`]; `OSUsers`
//! consults it only for keys it has not seen, and the one-shot lookups start
//! from an empty cache each time.

pub mod cache;
pub mod laws;
pub mod lookup;
pub mod record;
pub mod source;

pub use cache::{CacheView, OSUsers};
pub use lookup::{
    get_current_uid, get_group_by_gid, get_group_by_name, get_user_by_name, get_user_by_uid, Users,
};
pub use record::{Group, GroupView, User, UserView};
pub use source::IdentitySource;
