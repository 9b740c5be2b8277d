use std::sync::atomic::{AtomicUsize, Ordering};
use std::sync::Arc;
use std::task::{Wake, Waker};

use spdk::errors::{to_result, Errno, EAGAIN, EBADF, EINPROGRESS, ENOENT, SUCCESS};
use spdk::net::addr::{is_ipv4_shaped, split_host_service, SocketAddr, SocketAddrV4, SocketAddrV6};
use spdk::net::lookup::{
    begin_poll, eai_to_result, finish_check, finish_start, is_ready, poll_result, poller_tick,
    Error, ResolverState, ResolverStep, EAI_INPROGRESS, EAI_NONAME,
};
use spdk::net::socket_state::{to_result_size, ListenerState, StreamState};
use spdk::task::Poll;

struct Counter(AtomicUsize);

impl Wake for Counter {
    fn wake(self: Arc<Self>) {
        self.0.fetch_add(1, Ordering::SeqCst);
    }
}

fn counting_waker() -> (Arc<Counter>, Waker) {
    let c = Arc::new(Counter(AtomicUsize::new(0)));
    (c.clone(), Waker::from(c))
}

fn wakes(c: &Arc<Counter>) -> usize {
    c.0.load(Ordering::SeqCst)
}

#[test]
fn ipv4_shape_follows_the_pattern() {
    assert!(is_ipv4_shaped("192.168.0.1"));
    assert!(is_ipv4_shaped("10.100.1.1"));
    assert!(is_ipv4_shaped("127.0.0.1"));
    assert!(is_ipv4_shaped("10.1.1.1"));
    assert!(is_ipv4_shaped("::ffff:10.1.2.3"));
    assert!(!is_ipv4_shaped("1.2345"));
    assert!(!is_ipv4_shaped("1..2.3"));
    assert!(!is_ipv4_shaped("::1"));
    assert!(!is_ipv4_shaped("localhost"));
    assert!(!is_ipv4_shaped("1.2.3"));
    assert!(!is_ipv4_shaped("1.2.3."));
    assert!(!is_ipv4_shaped(".1.2.3"));
    assert!(!is_ipv4_shaped(""));
}

#[test]
fn new_socket_addr_classifies_host() {
    let a = SocketAddr::new("192.168.0.1".to_string(), 4420);
    assert!(a.is_iv4());
    assert!(!a.is_iv6());
    assert_eq!(a.ip(), "192.168.0.1");
    assert_eq!(a.port(), 4420);

    let l = SocketAddr::new("127.0.0.1".to_string(), 80);
    assert!(l.is_iv4());
    assert_eq!(l.port(), 80);
    assert_eq!(l.ip(), "127.0.0.1");

    let b = SocketAddr::new("fe80::1".to_string(), 80);
    assert!(b.is_iv6());
    assert_eq!(b.ip(), "fe80::1");
    assert_eq!(b.port(), 80);
}

#[test]
fn socket_addr_text_forms() {
    assert_eq!(SocketAddr::new("172.16.0.1".to_string(), 8080).to_string(), "172.16.0.1:8080");
    assert_eq!(SocketAddr::new("127.0.0.1".to_string(), 8080).to_string(), "127.0.0.1:8080");
    assert_eq!(SocketAddr::new("::1".to_string(), 8080).to_string(), "[::1]:8080");
    assert_eq!(SocketAddrV4::new("10.0.0.1".to_string(), 0).to_string(), "10.0.0.1:0");
    assert_eq!(SocketAddrV6::new("::".to_string(), 65535).to_string(), "[::]:65535");
}

#[test]
fn split_host_and_service() {
    let s = |t: &str| split_host_service(t);
    assert_eq!(s("localhost:8080"), Some(("localhost".to_string(), "8080".to_string())));
    assert_eq!(s("[::1]:8080"), Some(("::1".to_string(), "8080".to_string())));
    assert_eq!(s("::1:80"), Some(("::1".to_string(), "80".to_string())));
    assert_eq!(s("127.0.0.1:http"), Some(("127.0.0.1".to_string(), "http".to_string())));
    assert_eq!(s("[:x"), Some(("[".to_string(), "x".to_string())));
    assert_eq!(s("a]:b"), Some(("a".to_string(), "b".to_string())));
    assert_eq!(s("localhost"), None);
    assert_eq!(s(":8080"), None);
    assert_eq!(s("host:"), None);
    assert_eq!(s("a:b\n"), None);
    assert_eq!(s("[::1]"), Some((":".to_string(), "1]".to_string())));
    assert_eq!(s("[]:1"), Some(("[".to_string(), "1".to_string())));
}

#[test]
fn text_form_splits_back() {
    for (host, port) in [("192.168.10.1", 4420u16), ("127.0.0.1", 4420), ("::1", 8080), ("fe80::1%eth0", 0)] {
        let a = SocketAddr::new(host.to_string(), port);
        assert_eq!(
            split_host_service(&a.to_string()),
            Some((host.to_string(), port.to_string()))
        );
    }
}

#[test]
fn return_codes_to_results() {
    assert_eq!(to_result(0), Ok(()));
    assert_eq!(to_result(-2), Err(Errno(ENOENT)));
    assert_eq!(to_result(11), Err(Errno(EAGAIN)));
    assert_eq!(to_result(i32::MIN), Err(Errno(i32::MIN)));
    assert_eq!(eai_to_result(0), Ok(()));
    assert_eq!(eai_to_result(EAI_NONAME), Err(Error(EAI_NONAME)));
    assert_eq!(to_result_size(5, Errno(EBADF)), Ok(5));
    assert_eq!(to_result_size(-1, Errno(EBADF)), Err(Errno(EBADF)));
}

#[test]
fn lookup_status_codes() {
    assert!(!is_ready(EAI_INPROGRESS));
    assert!(is_ready(0));
    assert!(is_ready(EAI_NONAME));
    assert_eq!(poll_result(0), Ok(true));
    assert_eq!(poll_result(EAI_INPROGRESS), Ok(false));
    assert_eq!(poll_result(EAI_NONAME), Err(Error(EAI_NONAME)));
}

#[test]
fn resolver_runs_to_completion() {
    let (c, w) = counting_waker();
    let mut state = ResolverState::Idle;
    assert_eq!(begin_poll(&mut state, w.clone()), ResolverStep::Start);
    assert!(matches!(finish_start(0), Poll::Pending));
    assert!(poller_tick(&mut state, EAI_INPROGRESS).is_none());
    assert_eq!(wakes(&c), 0);
    assert_eq!(begin_poll(&mut state, w.clone()), ResolverStep::Wait);
    poller_tick(&mut state, 0).expect("waker handed back").wake();
    assert_eq!(wakes(&c), 1);
    assert!(matches!(state, ResolverState::Waking));
    assert_eq!(begin_poll(&mut state, w.clone()), ResolverStep::Check);
    assert!(matches!(finish_check(&mut state, 0), Poll::Ready(Ok(()))));
    assert!(matches!(state, ResolverState::Complete));
}

#[test]
fn resolver_failures() {
    assert!(matches!(finish_start(EAI_NONAME), Poll::Ready(Err(Error(EAI_NONAME)))));
    let (_c, w) = counting_waker();
    let mut state = ResolverState::Waking;
    assert_eq!(begin_poll(&mut state, w), ResolverStep::Check);
    assert!(matches!(finish_check(&mut state, EAI_INPROGRESS), Poll::Pending));
    assert!(matches!(state, ResolverState::Resolving(_)));
    assert!(matches!(finish_check(&mut state, EAI_NONAME), Poll::Ready(Err(Error(EAI_NONAME)))));
    assert!(matches!(state, ResolverState::Complete));
}

#[test]
fn stream_state_io_and_events() {
    let (c, w) = counting_waker();
    let mut s = StreamState::new();
    assert!(matches!(s.poll_io(Ok::<usize, Errno>(3), w.clone()), Poll::Ready(Ok(3))));
    assert!(matches!(s.poll_io(Err::<usize, Errno>(Errno(EBADF)), w.clone()), Poll::Ready(Err(Errno(EBADF)))));
    assert!(matches!(s.poll_io(Err::<usize, Errno>(Errno(EAGAIN)), w.clone()), Poll::Pending));
    assert_eq!(wakes(&c), 0);
    s.handle_event().expect("waker handed back").wake();
    assert_eq!(wakes(&c), 1);
    assert!(s.handle_event().is_none());
    assert!(matches!(s.poll_io(Err::<usize, Errno>(Errno(EAGAIN)), w.clone()), Poll::Pending));
    s.handle_event().expect("waker handed back").wake();
    assert_eq!(wakes(&c), 2);
    assert!(s.handle_event().is_none());
}

#[test]
fn stream_state_connection() {
    let (c, w) = counting_waker();
    let mut s = StreamState::connecting();
    assert!(matches!(s.poll_connected(Err(Errno(EAGAIN)), w.clone()), Poll::Pending));
    s.connect_complete(-111).expect("waker handed back").wake();
    assert_eq!(wakes(&c), 1);
    assert!(matches!(s.poll_connected(Err(Errno(EBADF)), w.clone()), Poll::Ready(Err(Errno(111)))));
    assert!(matches!(s.poll_connected(Ok(()), w.clone()), Poll::Ready(Ok(()))));

    let mut t = StreamState::connecting();
    assert!(matches!(t.poll_connected(Err(Errno(EBADF)), w.clone()), Poll::Ready(Err(Errno(EINPROGRESS)))));
    assert!(t.connect_complete(0).is_none());
    assert!(matches!(t.poll_connected(Err(Errno(EBADF)), w), Poll::Ready(Err(Errno(SUCCESS)))));
}

#[test]
fn listener_state_accepts() {
    let (c, w) = counting_waker();
    let mut l = ListenerState::new();
    assert!(matches!(l.poll_accept(Some(7u32), Errno(EAGAIN), w.clone()), Poll::Ready(Ok(7))));
    assert!(matches!(l.poll_accept(None::<u32>, Errno(EBADF), w.clone()), Poll::Ready(Err(Errno(EBADF)))));
    assert!(matches!(l.poll_accept(None::<u32>, Errno(EAGAIN), w.clone()), Poll::Pending));
    l.take_waker().expect("waker handed back").wake();
    assert_eq!(wakes(&c), 1);
    assert!(l.take_waker().is_none());
}
