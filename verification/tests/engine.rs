//! The library's configurations and its stream reader on the engine itself:
//! two endpoints of the engine's protocol state machine, joined in memory,
//! with datagrams carried and the clock moved by hand.

use peer_bootstrap::connection::{connect_error, ConnectError, ConnectionLoss};
use peer_bootstrap::peer_config::{
    build_client_config, new_client_cfg, new_our_cfg, ClientConfig, ServerConfig,
};
use peer_bootstrap::stream::{ReadFailure, ReadStep, StreamError, StreamReader, StreamState};
use peer_bootstrap::transport::{build_transport, engine_transport};
use peer_bootstrap::trust::TrustPolicy;
use quinn_proto::{
    Connection, ConnectionError, ConnectionHandle, DatagramEvent, Dir, Endpoint, Event, ReadError,
    StreamId,
};
use std::collections::VecDeque;
use std::sync::Arc;
use std::time::{Duration, Instant};

/// The engine's configuration of a listener, made from the library's.
fn engine_server(config: &ServerConfig) -> quinn::ServerConfig {
    let mut engine = quinn::ServerConfig::default();
    engine.transport = Arc::new(engine_transport(&config.transport()).unwrap());
    let mut builder = quinn::ServerConfigBuilder::new(engine);
    let identity = config.identity();
    let chain = quinn::CertificateChain::from_certs(
        identity.certificate_chain.iter().map(|der| quinn::Certificate::from_der(der).unwrap()),
    );
    let key = quinn::PrivateKey::from_der(&identity.private_key).unwrap();
    builder.certificate(chain, key).unwrap();
    builder.use_stateless_retry(config.stateless_retry_enabled());
    builder.build()
}

/// The engine's configuration of outbound connections, made from the library's.
fn engine_client(config: &ClientConfig) -> quinn::ClientConfig {
    let mut engine = quinn::ClientConfigBuilder::default().build();
    Arc::make_mut(&mut engine.crypto)
        .dangerous()
        .set_certificate_verifier(Arc::new(config.trust()));
    engine.transport = Arc::new(engine_transport(&config.transport()).unwrap());
    engine
}

/// The same, with the listener's own certificate among the trusted roots.
fn engine_client_trusting(config: &ClientConfig, listener: &ServerConfig) -> quinn::ClientConfig {
    let mut engine = engine_client(config);
    let root = rustls::Certificate(listener.identity().certificate_chain[0].clone());
    Arc::make_mut(&mut engine.crypto).root_store.add(&root).unwrap();
    engine
}

fn loss_of(error: &ConnectionError) -> ConnectionLoss {
    match error {
        ConnectionError::VersionMismatch => ConnectionLoss::VersionMismatch,
        ConnectionError::TransportError(_) => ConnectionLoss::TransportError,
        ConnectionError::ConnectionClosed(_) => ConnectionLoss::ConnectionClosed,
        ConnectionError::ApplicationClosed(_) => ConnectionLoss::ApplicationClosed,
        ConnectionError::Reset => ConnectionLoss::Reset,
        ConnectionError::TimedOut => ConnectionLoss::TimedOut,
        ConnectionError::LocallyClosed => ConnectionLoss::LocallyClosed,
    }
}

/// One endpoint of the engine with at most one connection, fed by hand.
struct Peer {
    endpoint: Endpoint,
    address: &'static str,
    connection: Option<(ConnectionHandle, Connection)>,
    inbound: VecDeque<Box<[u8]>>,
    connected: bool,
    lost: Option<ConnectionError>,
}

impl Peer {
    fn new(server: Option<quinn::ServerConfig>, address: &'static str) -> Peer {
        Peer {
            endpoint: Endpoint::new(Default::default(), server.map(Arc::new)),
            address,
            connection: None,
            inbound: VecDeque::new(),
            connected: false,
            lost: None,
        }
    }

    /// Handles what has arrived and what is due, and returns what is to be sent.
    fn turn(&mut self, now: Instant, remote: &str) -> Vec<Box<[u8]>> {
        while let Some(datagram) = self.inbound.pop_front() {
            let remote = remote.parse().unwrap();
            match self.endpoint.handle(now, remote, None, datagram.as_ref().into()) {
                Some((handle, DatagramEvent::NewConnection(connection))) => {
                    self.endpoint.accept();
                    self.connection = Some((handle, connection));
                }
                Some((_, DatagramEvent::ConnectionEvent(event))) => {
                    if let Some((_, connection)) = self.connection.as_mut() {
                        connection.handle_event(event);
                    }
                }
                None => {}
            }
        }
        let mut outbound = Vec::new();
        while let Some(transmit) = self.endpoint.poll_transmit() {
            outbound.push(transmit.contents);
        }
        if let Some((handle, connection)) = self.connection.as_mut() {
            if connection.poll_timeout().map_or(false, |due| due <= now) {
                connection.handle_timeout(now);
            }
            while let Some(event) = connection.poll_endpoint_events() {
                if let Some(answer) = self.endpoint.handle_event(*handle, event) {
                    connection.handle_event(answer);
                }
            }
            while let Some(transmit) = connection.poll_transmit(now) {
                outbound.push(transmit.contents);
            }
            while let Some(event) = connection.poll() {
                match event {
                    Event::Connected => self.connected = true,
                    Event::ConnectionLost { reason } => self.lost = Some(reason),
                    _ => {}
                }
            }
        }
        outbound
    }

    fn next_timeout(&mut self) -> Option<Instant> {
        self.connection.as_mut().and_then(|(_, connection)| connection.poll_timeout())
    }

    fn connection(&mut self) -> &mut Connection {
        &mut self.connection.as_mut().unwrap().1
    }
}

/// Two endpoints whose datagrams are carried by hand, on a clock moved by hand.
struct Pair {
    a: Peer,
    b: Peer,
    now: Instant,
}

impl Pair {
    fn new(listener: &ServerConfig) -> Pair {
        Pair {
            a: Peer::new(Some(engine_server(&listener.clone())), "127.0.0.1:8000"),
            b: Peer::new(Some(engine_server(listener)), "127.0.0.1:8001"),
            now: Instant::now(),
        }
    }

    /// Carries datagrams both ways until neither side has anything to send.
    fn settle(&mut self) {
        for _ in 0..10_000 {
            let from_a = self.a.turn(self.now, self.b.address);
            let quiet_a = from_a.is_empty();
            self.b.inbound.extend(from_a);
            let from_b = self.b.turn(self.now, self.a.address);
            let quiet_b = from_b.is_empty();
            self.a.inbound.extend(from_b);
            if quiet_a && quiet_b {
                return;
            }
        }
        panic!("the two endpoints never fall silent");
    }

    /// Lets time pass, timer by timer, with no traffic from the applications.
    fn pass(&mut self, time: Duration) {
        let end = self.now + time;
        loop {
            self.settle();
            let due = match (self.a.next_timeout(), self.b.next_timeout()) {
                (Some(x), Some(y)) => Some(x.min(y)),
                (x, y) => x.or(y),
            };
            match due {
                Some(due) if due <= end => self.now = self.now.max(due),
                _ => break,
            }
        }
        self.now = end;
        self.settle();
    }

    /// Endpoint A connects to endpoint B.
    fn connect(&mut self, config: &ClientConfig, server_name: &str) {
        self.connect_with(engine_client(config), server_name);
    }

    /// Endpoint A connects to endpoint B with a configuration of the engine.
    fn connect_with(&mut self, config: quinn::ClientConfig, server_name: &str) {
        let remote = self.b.address.parse().unwrap();
        let attempt = self.a.endpoint.connect(config, remote, server_name);
        self.a.connection = Some(attempt.unwrap());
        self.pass(Duration::from_millis(200));
    }

    /// Takes the engine's next report on a stream of endpoint B into a
    /// reader, letting time pass where the engine has nothing yet.
    fn report_to(&mut self, reader: &mut StreamReader, stream: StreamId) {
        let mut chunk = [0u8; 64];
        match self.b.connection().read(stream, &mut chunk) {
            Ok(Some(n)) => reader.deliver(&chunk[..n]),
            Ok(None) => reader.finish(),
            Err(ReadError::Blocked) => self.pass(Duration::from_millis(50)),
            Err(ReadError::Reset(_)) => reader.abort(ReadFailure::Reset),
            Err(ReadError::UnknownStream) => reader.abort(ReadFailure::UnknownStream),
        }
    }

    /// Reads a stream of endpoint B to its end through a `StreamReader`.
    fn read_to_end_at_b(
        &mut self,
        reader: &mut StreamReader,
        stream: StreamId,
        cap: usize,
    ) -> Result<Vec<u8>, StreamError> {
        loop {
            match reader.read_to_end(cap) {
                ReadStep::Ready(bytes) => return Ok(bytes),
                ReadStep::Failed(error) => return Err(error),
                ReadStep::Pending => self.report_to(reader, stream),
            }
        }
    }
}

fn self_signed_listener(idle_timeout: u64, keep_alive: u32) -> ServerConfig {
    let cert = rcgen::generate_simple_self_signed(vec!["MaidSAFE.net".to_string()]).unwrap();
    let key = cert.serialize_private_key_der();
    let cert = cert.serialize_der().unwrap();
    new_our_cfg(idle_timeout, keep_alive, cert, key).unwrap()
}

#[test]
fn simple_test() {
    let endpoint_cfg = self_signed_listener(30_000, 10_000);
    let client_cfg = new_client_cfg(30_000, 10_000, TrustPolicy::AcceptAny);
    let mut pair = Pair::new(&endpoint_cfg);

    pair.connect(&client_cfg, "QuinnDemo");
    assert!(pair.a.connected);
    assert!(pair.b.connected);

    let send_a = pair.a.connection().open(Dir::Bi).unwrap();
    assert_eq!(pair.a.connection().write(send_a, &vec![1, 2, 3, 4]).unwrap(), 4);
    pair.a.connection().finish(send_a).unwrap();
    pair.pass(Duration::from_millis(50));

    let recv_b = pair.b.connection().accept(Dir::Bi).unwrap();
    let mut reader = StreamReader::new();

    // Nothing has been taken from the engine yet: the read copies nothing,
    // and that is not the end of the stream.
    let len = reader.read(0).unwrap().map(|data| data.len());
    println!("Read {:?}, Len {:?}", Vec::<u8>::new(), len);
    assert_eq!(len, Some(0));
    assert_eq!(reader.state(), StreamState::Open);

    let data = reader.read_exact(0);
    println!("Read: {:?}", data);
    assert_eq!(data, ReadStep::Ready(Vec::new()));

    let data = pair.read_to_end_at_b(&mut reader, recv_b, 100).unwrap();
    println!("Read: {:?}", data);
    assert_eq!(data, vec![1, 2, 3, 4]);
    assert_eq!(reader.state(), StreamState::Closed);
}

#[test]
fn read_exact_takes_a_payload_from_the_engine_and_fails_past_its_end() {
    let mut pair = Pair::new(&self_signed_listener(30_000, 10_000));
    pair.connect(&new_client_cfg(30_000, 10_000, TrustPolicy::AcceptAny), "QuinnDemo");
    let send_a = pair.a.connection().open(Dir::Bi).unwrap();
    assert_eq!(pair.a.connection().write(send_a, &[1, 2, 3, 4]).unwrap(), 4);
    pair.a.connection().finish(send_a).unwrap();
    pair.pass(Duration::from_millis(50));
    let recv_b = pair.b.connection().accept(Dir::Bi).unwrap();

    let mut reader = StreamReader::new();
    let first = loop {
        match reader.read_exact(3) {
            ReadStep::Pending => pair.report_to(&mut reader, recv_b),
            step => break step,
        }
    };
    assert_eq!(first, ReadStep::Ready(vec![1, 2, 3]));
    let second = loop {
        match reader.read_exact(2) {
            ReadStep::Pending => pair.report_to(&mut reader, recv_b),
            step => break step,
        }
    };
    assert_eq!(second, ReadStep::Failed(StreamError::UnexpectedEnd));
}

#[test]
fn read_to_end_fails_when_the_stream_is_longer_than_the_cap() {
    let mut pair = Pair::new(&self_signed_listener(30_000, 10_000));
    pair.connect(&new_client_cfg(30_000, 10_000, TrustPolicy::AcceptAny), "QuinnDemo");
    let send_a = pair.a.connection().open(Dir::Bi).unwrap();
    assert_eq!(pair.a.connection().write(send_a, &[7u8; 5]).unwrap(), 5);
    pair.a.connection().finish(send_a).unwrap();
    pair.pass(Duration::from_millis(50));
    let recv_b = pair.b.connection().accept(Dir::Bi).unwrap();
    let mut reader = StreamReader::new();
    assert_eq!(
        pair.read_to_end_at_b(&mut reader, recv_b, 4),
        Err(StreamError::SizeLimitExceeded)
    );
}

#[test]
fn strict_trust_fails_the_handshake_for_another_name() {
    let mut pair = Pair::new(&self_signed_listener(30_000, 10_000));
    let strict = build_client_config(build_transport(30_000, 10_000), TrustPolicy::Strict);
    pair.connect(&strict, "QuinnDemo");
    assert!(!pair.a.connected);
    let reason = pair.a.lost.clone().expect("the handshake should have failed");
    let error = connect_error(loss_of(&reason), reason.to_string());
    assert_eq!(error, ConnectError::HandshakeFailed(reason.to_string()));
}

#[test]
fn strict_trust_fails_the_handshake_of_a_trusted_certificate_for_another_name() {
    let listener = self_signed_listener(30_000, 10_000);
    let mut pair = Pair::new(&listener);
    let strict = build_client_config(build_transport(30_000, 10_000), TrustPolicy::Strict);
    pair.connect_with(engine_client_trusting(&strict, &listener), "QuinnDemo");
    assert!(!pair.a.connected);
    let reason = pair.a.lost.clone().expect("the handshake should have failed");
    assert_eq!(loss_of(&reason), ConnectionLoss::TransportError);
}

#[test]
fn strict_trust_completes_the_handshake_of_a_trusted_certificate_for_its_name() {
    let listener = self_signed_listener(30_000, 10_000);
    let mut pair = Pair::new(&listener);
    let strict = build_client_config(build_transport(30_000, 10_000), TrustPolicy::Strict);
    pair.connect_with(engine_client_trusting(&strict, &listener), "MaidSAFE.net");
    assert!(pair.a.connected);
    assert!(pair.b.connected);
    assert_eq!(pair.a.lost, None);
}

#[test]
fn silence_beyond_the_idle_timeout_ends_the_connection() {
    // The keep-alive interval exceeds the idle timeout: no keep-alive is ever sent in time.
    let transport = build_transport(2_000, 60_000);
    assert!(!transport.is_consistent());
    let mut pair = Pair::new(&self_signed_listener(2_000, 60_000));
    pair.connect(&new_client_cfg(2_000, 60_000, TrustPolicy::AcceptAny), "QuinnDemo");
    assert!(pair.a.connected && pair.b.connected);
    pair.pass(Duration::from_millis(2_500));
    let reason = pair.a.lost.clone().expect("the connection should have idled out");
    assert_eq!(reason, ConnectionError::TimedOut);
    assert_eq!(connect_error(loss_of(&reason), reason.to_string()), ConnectError::ConnectionTimedOut);
    assert_eq!(pair.b.lost, Some(ConnectionError::TimedOut));
}

#[test]
fn keep_alives_hold_a_silent_connection_open() {
    let transport = build_transport(2_000, 500);
    assert!(transport.is_consistent());
    let mut pair = Pair::new(&self_signed_listener(2_000, 500));
    pair.connect(&new_client_cfg(2_000, 500, TrustPolicy::AcceptAny), "QuinnDemo");
    assert!(pair.a.connected && pair.b.connected);
    pair.pass(Duration::from_millis(10_000));
    assert_eq!(pair.a.lost, None);
    assert_eq!(pair.b.lost, None);
}
