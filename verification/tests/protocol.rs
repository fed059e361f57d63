//! Connections that hyper drives, over streams in memory.

use std::future::Future;

use bytes::Bytes;
use futures_util::future::join;
use http_body_util::Full;
use hyper_util::rt::{TokioExecutor, TokioIo};
use hyperdriver::client::conn::connection::{Http1Connection, Http2Connection};
use hyperdriver::client::conn::protocol::auto::{
    AlpnHttpConnectionBuilder, HttpConnection, InnerConnection,
};
use hyperdriver::client::conn::protocol::http::HttpConnectionBuilder;
use hyperdriver::client::conn::protocol::{HttpProtocol, Version};
use hyperdriver::client::pool::key::UriKey;
use hyperdriver::client::pool::{Config, Pool, PoolableConnection};
use hyperdriver::info::TlsConnectionInfo;
use tokio::io::{AsyncBufReadExt, BufReader, DuplexStream};

type TestBody = Full<Bytes>;

fn block_on<F: Future>(future: F) -> F::Output {
    tokio::runtime::Builder::new_current_thread().build().unwrap().block_on(future)
}

async fn h1(stream: DuplexStream) -> hyper::client::conn::http1::SendRequest<TestBody> {
    let (sender, connection) =
        hyper::client::conn::http1::handshake(TokioIo::new(stream)).await.unwrap();
    tokio::spawn(connection);
    sender
}

async fn h2(stream: DuplexStream) -> hyper::client::conn::http2::SendRequest<TestBody> {
    let (sender, connection) =
        hyper::client::conn::http2::handshake(TokioExecutor::new(), TokioIo::new(stream))
            .await
            .unwrap();
    tokio::spawn(connection);
    sender
}

async fn started(picked: HttpProtocol, stream: DuplexStream) -> HttpConnection<TestBody> {
    let mut connection = match picked {
        HttpProtocol::Http2 => HttpConnection::h2(h2(stream).await),
        _ => HttpConnection::h1(h1(stream).await),
    };
    match &mut connection.inner {
        InnerConnection::H2(sender) => sender.ready().await.unwrap(),
        InnerConnection::H1(sender) => sender.ready().await.unwrap(),
    }
    connection
}

/// Sends a request, and gives the first line that arrives.
async fn first_line(connection: &mut HttpConnection<TestBody>, server: DuplexStream) -> String {
    let mut request = http::Request::new(Full::new(Bytes::new()));
    *request.uri_mut() = "http://localhost/".parse().unwrap();
    *request.version_mut() = match connection.request_version() {
        Version::Http2 => http::Version::HTTP_2,
        _ => http::Version::HTTP_11,
    };
    let receiving = async move {
        let mut line = String::new();
        BufReader::new(server).read_line(&mut line).await.unwrap();
        line
    };
    match &mut connection.inner {
        InnerConnection::H2(sender) => join(sender.send_request(request), receiving).await.1,
        InnerConnection::H1(sender) => join(sender.send_request(request), receiving).await.1,
    }
}

fn tls_info(alpn_h2: bool) -> Option<TlsConnectionInfo> {
    let mut info = TlsConnectionInfo::new();
    info.server_name = Some("example.com".to_owned());
    if alpn_h2 {
        info.alpn = Some("h2".to_owned());
    }
    Some(info)
}

#[test]
fn http_http_connector_request_h1() {
    block_on(async {
        let builder = HttpConnectionBuilder::new((), ());
        let (stream, server) = tokio::io::duplex(1024);
        let mut conn = started(builder.handshake(HttpProtocol::Http1, &None), stream).await;
        assert!(conn.is_open());
        assert!(!conn.can_share());
        assert_eq!(conn.request_version(), Version::Http11);
        assert!(conn.reuse().is_none());
        assert_eq!(conn.debug_text(), "HttpConnection { version: HTTP/1.1 }");
        assert_eq!(first_line(&mut conn, server).await, "GET http://localhost/ HTTP/1.1\r\n");
    });
}

#[test]
fn http_http_connector_request_h2() {
    block_on(async {
        let builder = HttpConnectionBuilder::new((), ());
        let (stream, server) = tokio::io::duplex(1024);
        let mut conn = started(builder.handshake(HttpProtocol::Http2, &None), stream).await;
        assert!(conn.is_open());
        assert!(conn.can_share());
        assert_eq!(conn.request_version(), Version::Http2);
        assert!(conn.reuse().is_some());
        assert_eq!(conn.debug_text(), "HttpConnection { version: HTTP/2.0 }");
        assert_eq!(first_line(&mut conn, server).await, "PRI * HTTP/2.0\r\n");
    });
}

#[test]
fn auto_http_connector_request_h1() {
    block_on(async {
        let builder = AlpnHttpConnectionBuilder;
        let (stream, server) = tokio::io::duplex(1024);
        let mut conn = started(builder.call(&tls_info(false)), stream).await;
        assert!(conn.is_open());
        assert_eq!(conn.version(), HttpProtocol::Http1);
        assert!(!conn.can_share());
        assert!(conn.reuse().is_none());
        assert_eq!(first_line(&mut conn, server).await, "GET http://localhost/ HTTP/1.1\r\n");
    });
}

#[test]
fn http_connector_alpn_h2() {
    block_on(async {
        let builder = AlpnHttpConnectionBuilder;
        let (stream, server) = tokio::io::duplex(1024);
        let mut conn = started(builder.call(&tls_info(true)), stream).await;
        assert!(conn.is_open());
        assert_eq!(conn.version(), HttpProtocol::Http2);
        assert!(conn.can_share());
        assert!(conn.reuse().is_some());
        assert_eq!(first_line(&mut conn, server).await, "PRI * HTTP/2.0\r\n");
    });
}

#[test]
fn mod_http_connector_request_h2() {
    block_on(async {
        let (stream, _server) = tokio::io::duplex(1024);
        let mut conn = Http2Connection::new(h2(stream).await);
        conn.0.ready().await.unwrap();
        assert!(conn.is_open());
        assert!(conn.can_share());
        assert_eq!(conn.version(), Version::Http2);
        assert!(conn.reuse().is_some());
    });
}

#[test]
fn plain_connections_are_not_shared() {
    block_on(async {
        let (stream, _server) = tokio::io::duplex(1024);
        let mut conn = Http1Connection::new(h1(stream).await);
        conn.0.ready().await.unwrap();
        assert!(conn.is_open());
        assert!(!conn.can_share());
        assert_eq!(conn.version(), Version::Http11);
        assert!(conn.reuse().is_none());
    });
}

#[test]
fn connections_close_with_their_stream() {
    block_on(async {
        let (stream, server) = tokio::io::duplex(1024);
        let conn = started(HttpProtocol::Http1, stream).await;
        assert!(conn.is_open());
        drop(server);
        while conn.is_open() {
            tokio::task::yield_now().await;
        }
        assert!(!conn.is_open());
    });
}

#[test]
fn pooled_connections_are_those_that_hyper_drives() {
    block_on(async {
        let mut pool: Pool<HttpConnection<TestBody>, UriKey> = Pool::new(Config::default());
        let key = UriKey::parse("http://localhost").unwrap();
        let checkout = pool.checkout(key, false, ());
        let (stream, _server) = tokio::io::duplex(1024);
        let conn = started(HttpProtocol::Http1, stream).await;
        let pooled = pool.inner.register_connected(checkout.token, conn);
        assert!(!pooled.is_reused);
        assert_eq!(pool.inner.count_idle(checkout.token), 0);

        let (stream, _other) = tokio::io::duplex(1024);
        let shared = started(HttpProtocol::Http2, stream).await;
        drop(checkout);
        let key = UriKey::parse("http://other").unwrap();
        let checkout = pool.checkout(key, true, ());
        let token = checkout.token;
        drop(checkout);
        let pooled = pool.inner.register_connected(token, shared);
        assert!(pooled.is_reused);
        assert_eq!(pool.inner.count_idle(token), 1);
        let found = pool.inner.pop(token).unwrap();
        assert_eq!(found.version(), HttpProtocol::Http2);
    });
}
