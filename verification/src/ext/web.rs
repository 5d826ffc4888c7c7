//! The permission policy shared by the network-facing extensions, and the
//! outside type that its checks are handed.

use vstd::prelude::*;

verus! {

/// A parsed URL, `url::Url`. The library carries one from the transport to
/// the permission check and never looks inside.
#[verifier::external_type_specification]
#[verifier::external_body]
pub struct ExUrl(url::Url);

/// The permission policy handed to the network-facing extensions.
///
/// Installing such an extension is the whole grant: the policy holds no
/// state and no list of hosts.
#[derive(Debug, Clone, Copy, PartialEq, Eq, Structural)]
pub struct Permissions;

} // verus!
