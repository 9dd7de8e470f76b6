//! The comparison operators of search domains.

use vstd::prelude::*;

verus! {

pub const EQUALS_TO: &'static str = "=";

pub const NOT_EQUALS_TO: &'static str = "!=";

pub const GREATER_THAN: &'static str = ">";

pub const GREATER_THAN_OR_EQUAL_TO: &'static str = ">=";

pub const LESS_THAN: &'static str = "<";

pub const LESS_THAN_OR_EQUAL_TO: &'static str = "<=";

pub const UNSET_OR_EQUALS_TO: &'static str = "=?";

pub const EQUALS_LIKE: &'static str = "=like";

pub const NOT_EQUALS_LIKE: &'static str = "not =like";

pub const LIKE: &'static str = "like";

pub const NOT_LIKE: &'static str = "not like";

pub const ILIKE: &'static str = "ilike";

pub const NOT_ILIKE: &'static str = "not ilike";

pub const IN: &'static str = "in";

pub const NOT_IN: &'static str = "not in";

pub const CHILD_OF: &'static str = "child_of";

pub const PARENT_OF: &'static str = "parent_of";

pub const ANY: &'static str = "any";

pub const NOT_ANY: &'static str = "not any";

pub const ANY_NOT: &'static str = "any!";

pub const NOT_ANY_NOT: &'static str = "not any!";

} // verus!
