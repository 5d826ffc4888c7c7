//! The WebSocket capability: its options, its permission check, and the
//! extensions that a runtime installs to grant it.

use vstd::prelude::*;
use crate::error::Error;
use crate::ext::web::Permissions;

verus! {

/// Options of the WebSocket capability.
///
/// `P` is the type of the root certificate store provider. The library only
/// carries a provider from the options to the extension that uses it.
pub struct WebSocketOptions<P> {
    /// The user agent sent with the opening handshake.
    pub user_agent: String,
    /// Where the root certificates come from; `None` for the built-in store.
    pub root_cert_store_provider: Option<P>,
    /// Hosts whose certificate errors are ignored; `None` to ignore none.
    pub unsafely_ignore_certificate_errors: Option<Vec<String>>,
}

impl<P> Default for WebSocketOptions<P> {
    /// An empty user agent, the built-in certificate store, and no host
    /// exempt from certificate checks.
    fn default() -> (r: Self)
        ensures
            r.user_agent@ == Seq::<char>::empty(),
            r.root_cert_store_provider is None,
            r.unsafely_ignore_certificate_errors is None,
    {
        WebSocketOptions {
            user_agent: String::new(),
            root_cert_store_provider: None,
            unsafely_ignore_certificate_errors: None,
        }
    }
}

/// One extension to hand to the engine when a runtime is built.
pub enum ExtensionInit<P> {
    /// The transport: the operations behind the guest's `WebSocket` API,
    /// configured by the options.
    Transport {
        /// The options that configure the transport.
        options: WebSocketOptions<P>,
        /// Whether the guest-side sources are installed with the operations.
        with_sources: bool,
    },
    /// The glue that publishes the `WebSocket` API on the guest's global
    /// object. It depends on the transport and must follow it.
    Globals {
        /// Whether the guest-side sources are installed with the operations.
        with_sources: bool,
    },
}

/// The extensions of the WebSocket capability in the order in which the
/// engine must install them, for a runtime or for a snapshot.
pub open spec fn extension_list<P>(options: WebSocketOptions<P>, with_sources: bool) -> Seq<
    ExtensionInit<P>,
> {
    seq![
        ExtensionInit::Transport { options, with_sources },
        ExtensionInit::Globals { with_sources },
    ]
}

/// The extensions to install in a runtime that starts from source: the
/// transport configured by `options`, then the globals, both with their
/// guest-side sources.
pub fn extensions<P>(options: WebSocketOptions<P>) -> (r: Vec<ExtensionInit<P>>)
    ensures
        r@ == extension_list(options, true),
{
    let mut list: Vec<ExtensionInit<P>> = Vec::new();
    list.push(ExtensionInit::Transport { options, with_sources: true });
    list.push(ExtensionInit::Globals { with_sources: true });
    proof {
        assert(list@ =~= extension_list(options, true));
    }
    list
}

/// The extensions to install in a runtime that starts from a snapshot: the
/// same two in the same order, without their guest-side sources, which the
/// snapshot already holds.
pub fn snapshot_extensions<P>(options: WebSocketOptions<P>) -> (r: Vec<ExtensionInit<P>>)
    ensures
        r@ == extension_list(options, false),
{
    let mut list: Vec<ExtensionInit<P>> = Vec::new();
    list.push(ExtensionInit::Transport { options, with_sources: false });
    list.push(ExtensionInit::Globals { with_sources: false });
    proof {
        assert(list@ =~= extension_list(options, false));
    }
    list
}

impl Permissions {
    /// Whether guest code may open a connection to `url` through the API
    /// named `api_name`: always, since installing the capability grants the
    /// whole network. The policy is left as it was.
    pub fn check_net_url(&mut self, url: &url::Url, api_name: &str) -> (r: Result<(), Error>)
        ensures
            r is Ok,
            *final(self) == *old(self),
    {
        Ok(())
    }
}

} // verus!
