//! HTTP connections of a version that is asked for.

use vstd::prelude::*;

use crate::client::conn::protocol::auto::AlpnHttpConnectionBuilder;
use crate::client::conn::protocol::HttpProtocol;
use crate::info::TlsConnectionInfo;

verus! {

/// Settings for HTTP connections. `A` configures HTTP/1.1 and `B` HTTP/2.
#[derive(Debug)]
pub struct HttpConnectionBuilder<A, B> {
    http1: A,
    http2: B,
}

impl<A, B> HttpConnectionBuilder<A, B> {
    /// How HTTP/1.1 and HTTP/2 are configured.
    pub closed spec fn parts(self) -> (A, B) {
        (self.http1, self.http2)
    }

    /// Settings for HTTP connections.
    pub fn new(http1: A, http2: B) -> (builder: Self)
        ensures
            builder.parts() == (http1, http2),
    {
        HttpConnectionBuilder { http1, http2 }
    }

    /// Get the HTTP/1.1 configuration.
    pub fn http1(&mut self) -> (http1: &mut A)
        ensures
            *http1 == old(self).parts().0,
            final(self).parts() == (*final(http1), old(self).parts().1),
    {
        &mut self.http1
    }

    /// Get the HTTP/2 configuration.
    pub fn http2(&mut self) -> (http2: &mut B)
        ensures
            *http2 == old(self).parts().1,
            final(self).parts() == (old(self).parts().0, *final(http2)),
    {
        &mut self.http2
    }

    /// The handshake for a transport: HTTP/2 where it is asked for or was agreed on when
    /// the transport was encrypted.
    pub fn handshake(&self, protocol: HttpProtocol, tls: &Option<TlsConnectionInfo>) -> (picked:
        HttpProtocol)
        requires
            protocol != HttpProtocol::Http3,
        ensures
            picked == if protocol == HttpProtocol::Http2
                || crate::client::conn::protocol::auto::agreed(*tls) == Some("h2"@) {
                HttpProtocol::Http2
            } else {
                HttpProtocol::Http1
            },
    {
        AlpnHttpConnectionBuilder.handshake(protocol, tls)
    }
}

impl<A: Clone, B: Clone> Clone for HttpConnectionBuilder<A, B> {
    fn clone(&self) -> (copy: Self)
        ensures
            cloned(self.parts().0, copy.parts().0),
            cloned(self.parts().1, copy.parts().1),
    {
        HttpConnectionBuilder { http1: self.http1.clone(), http2: self.http2.clone() }
    }
}

/// The two configurations are kept apart, each as it was last set, and the handshake is
/// picked by what is asked for or was agreed on.
pub proof fn law_configurations_are_kept_apart<A, B>(
    http1: A,
    http2: B,
    made: HttpConnectionBuilder<A, B>,
    other1: A,
    other2: B,
    between: HttpConnectionBuilder<A, B>,
    last: HttpConnectionBuilder<A, B>,
    found1: A,
    found2: B,
    left1: A,
    left2: B,
)
    requires
        call_ensures(HttpConnectionBuilder::<A, B>::new, (http1, http2), made),
        exists|m: &mut HttpConnectionBuilder<A, B>, set: &mut A|
            *m == made && *final(m) == between && *set == found1 && *final(set) == other1
                && #[trigger] call_ensures(HttpConnectionBuilder::<A, B>::http1, (m,), set),
        exists|m: &mut HttpConnectionBuilder<A, B>, set: &mut B|
            *m == between && *final(m) == last && *set == found2 && *final(set) == other2
                && #[trigger] call_ensures(HttpConnectionBuilder::<A, B>::http2, (m,), set),
        exists|m: &mut HttpConnectionBuilder<A, B>, set: &mut A|
            *m == last && *set == left1 && #[trigger] call_ensures(
                HttpConnectionBuilder::<A, B>::http1,
                (m,),
                set,
            ),
        exists|m: &mut HttpConnectionBuilder<A, B>, set: &mut B|
            *m == last && *set == left2 && #[trigger] call_ensures(
                HttpConnectionBuilder::<A, B>::http2,
                (m,),
                set,
            ),
    ensures
        found1 == http1,
        found2 == http2,
        left1 == other1,
        left2 == other2,
{
}

/// The handshake of a configured builder is the one that is picked without configuration:
/// HTTP/2 where it is asked for or was agreed on by its name, HTTP/1 everywhere else.
pub proof fn law_configuration_does_not_pick<A, B>(
    builder: HttpConnectionBuilder<A, B>,
    protocol: HttpProtocol,
    tls: Option<TlsConnectionInfo>,
    picked: HttpProtocol,
    plain: HttpProtocol,
)
    requires
        call_ensures(HttpConnectionBuilder::<A, B>::handshake, (&builder, protocol, &tls), picked),
        call_ensures(
            AlpnHttpConnectionBuilder::handshake,
            (&AlpnHttpConnectionBuilder, protocol, &tls),
            plain,
        ),
    ensures
        picked == plain,
        protocol == HttpProtocol::Http2 ==> picked == HttpProtocol::Http2,
        protocol != HttpProtocol::Http2 && tls is None ==> picked == HttpProtocol::Http1,
        tls is Some && tls->0.alpn is Some && tls->0.alpn->0@ == seq!['h', '2'] ==> picked
            == HttpProtocol::Http2,
{
    reveal_strlit("h2");
    assert("h2"@ =~= seq!['h', '2']);
}

} // verus!
