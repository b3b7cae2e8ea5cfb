//! End-to-end exercises of the binder facade model: class definition,
//! handle lifecycle, transaction routing, and the dump channel.

use binder::descriptor::{check_descriptor, check_utf8};
use binder::dump::{check_dump_args, DumpChannel};
use binder::parcel::Parcel;
use binder::registry::{DumpDisposition, Host, IBinder, IBinderClass};
use binder::status::BinderStatus;

fn descriptor_bytes(s: &str) -> Vec<u8> {
    s.as_bytes().to_vec()
}

#[test]
fn define_rejects_empty_descriptor() {
    let mut host = Host::new();
    let r = IBinderClass::define(&mut host, &Vec::new());
    assert!(r.is_none());
}

#[test]
fn define_rejects_interior_nul() {
    let mut host = Host::new();
    let r = IBinderClass::define(&mut host, &vec![b'a', 0, b'b']);
    assert!(r.is_none());
}

#[test]
fn define_rejects_invalid_utf8() {
    let mut host = Host::new();
    // A lone continuation byte, an invalid lead byte, an overlong
    // encoding, a UTF-16 surrogate, and a truncated sequence.
    for bad in [
        vec![0x80],
        vec![0xFF],
        vec![0xC0, 0xAF],
        vec![0xED, 0xA0, 0x80],
        vec![0xE2, 0x82],
    ] {
        assert!(IBinderClass::define(&mut host, &bad).is_none());
    }
}

#[test]
fn define_accepts_valid_descriptor() {
    let mut host = Host::new();
    let d = descriptor_bytes("com.example.IFoo");
    let cls = IBinderClass::define(&mut host, &d).expect("valid descriptor");
    assert_eq!(cls.descriptor(&host).as_slice(), d.as_slice());
}

#[test]
fn define_accepts_multibyte_utf8() {
    let mut host = Host::new();
    let d = descriptor_bytes("com.example.Grüße.😀");
    assert!(IBinderClass::define(&mut host, &d).is_some());
}

#[test]
fn check_descriptor_matches_utf8_rules() {
    assert!(check_descriptor(&descriptor_bytes("a")));
    assert!(check_descriptor(&vec![0xC2, 0x80]));
    assert!(check_descriptor(&vec![0xF4, 0x8F, 0xBF, 0xBF]));
    assert!(!check_descriptor(&vec![0xF4, 0x90, 0x80, 0x80]));
    assert!(!check_descriptor(&vec![0xE0, 0x80, 0x80]));
    assert!(!check_descriptor(&vec![]));
}

#[test]
fn define_twice_makes_independent_classes() {
    let mut host = Host::new();
    let d = descriptor_bytes("com.example.ITwin");
    let first = IBinderClass::define(&mut host, &d).unwrap();
    let second = IBinderClass::define(&mut host, &d).unwrap();
    assert_ne!(first, second);
    first.set_on_dump(&mut host);
    assert!(first.has_dump_handler(&host));
    assert!(!second.has_dump_handler(&host));
    second.disable_interface_token_header(&mut host);
    assert!(second.interface_token_disabled(&host));
    assert!(!first.interface_token_disabled(&host));
}

#[test]
fn liveness_follows_last_reference() {
    let mut host = Host::new();
    let cls = IBinderClass::define(&mut host, &descriptor_bytes("com.example.ILife")).unwrap();
    let handle = host.new_object(&cls, 5);
    assert!(handle.is_alive(&host));
    let copy = handle.clone_handle(&mut host);
    assert!(handle.release(&mut host).is_none());
    assert!(copy.is_alive(&host));
    // Last reference: the object dies and its user data comes back for
    // the destroy callback.
    assert_eq!(copy.release(&mut host), Some(5));
    let stale = IBinder::borrow_raw(&host, 1).unwrap();
    assert!(!stale.is_alive(&host));
}

#[test]
fn remote_proxy_liveness_counts_native_reference() {
    let mut host = Host::new();
    let raw = host.adopt_remote_object();
    let handle = IBinder::from_ptr(&mut host, raw).unwrap();
    assert!(handle.is_remote(&host));
    assert!(handle.class(&host).is_none());
    // Dropping the local handle leaves the native-side reference.
    assert!(handle.release(&mut host).is_none());
    let again = IBinder::borrow_raw(&host, raw).unwrap();
    assert!(again.is_alive(&host));
    // The native side lets go: no destroy callback for a proxy.
    assert!(host.native_release(raw).is_none());
    assert!(!again.is_alive(&host));
}

#[test]
fn from_ptr_null_is_rejected() {
    let mut host = Host::new();
    assert!(IBinder::from_ptr(&mut host, 0).is_none());
    assert!(IBinder::borrow_raw(&host, 0).is_none());
}

#[test]
fn from_ptr_unknown_or_dead_is_rejected() {
    let mut host = Host::new();
    assert!(IBinder::from_ptr(&mut host, 7).is_none());
    let raw = host.adopt_remote_object();
    host.native_release(raw);
    assert!(IBinder::from_ptr(&mut host, raw).is_none());
}

#[test]
fn dispatch_routes_each_object_to_its_own_state() {
    let mut host = Host::new();
    let cls = IBinderClass::define(&mut host, &descriptor_bytes("com.example.IMany")).unwrap();
    let mut handles = Vec::new();
    for i in 0..8usize {
        handles.push(host.new_object(&cls, 100 + i));
    }
    for (i, h) in handles.iter().enumerate() {
        let target = h.transact_target(&host).expect("object is alive");
        assert_eq!(target.user_data, 100 + i);
        assert_eq!(target.class, cls);
    }
    // Creating more objects afterwards must not redirect earlier ones.
    let other = IBinderClass::define(&mut host, &descriptor_bytes("com.example.IOther")).unwrap();
    host.new_object(&other, 999);
    let target = handles[3].transact_target(&host).expect("object is alive");
    assert_eq!(target.user_data, 103);
    assert_eq!(target.class, cls);
}

#[test]
fn dispatch_on_dead_object_reports_dead_object() {
    let mut host = Host::new();
    let cls = IBinderClass::define(&mut host, &descriptor_bytes("com.example.IDead")).unwrap();
    let handle = host.new_object(&cls, 1);
    assert_eq!(handle.release(&mut host), Some(1));
    let stale = IBinder::borrow_raw(&host, 1).unwrap();
    assert_eq!(
        stale.transact_target(&host).unwrap_err(),
        BinderStatus::DeadObject
    );
}

#[test]
fn echo_transaction_round_trips_ping() {
    let mut host = Host::new();
    let cls = IBinderClass::define(&mut host, &descriptor_bytes("com.example.IFoo")).unwrap();
    let handle = host.new_object(&cls, 42);
    let code: u32 = 1;
    let input = Parcel::from_bytes(b"ping".to_vec());
    let mut output = Parcel::new();
    // The harness stands in for the native call site: resolve the target,
    // then run the registered transact closure (an echo) against it.
    let target = handle.transact_target(&host).expect("object is alive");
    assert_eq!(target.user_data, 42);
    let status = {
        let _ = code;
        output.append_bytes(input.as_bytes());
        BinderStatus::Success
    };
    assert!(status.is_success());
    assert_eq!(output.as_bytes().as_slice(), b"ping");
    assert_eq!(output.len(), 4);
    assert_eq!(output.byte_at(0), b'p');
    assert!(input.len() == 4 && !input.is_empty());
}

#[test]
fn dump_round_trip_empty() {
    let mut ch = DumpChannel::new();
    assert!(ch.finish(BinderStatus::Success).is_ok());
    assert!(ch.drain().is_empty());
}

#[test]
fn dump_round_trip_single_byte() {
    let mut ch = DumpChannel::new();
    ch.write_chunk(&vec![0xAB]);
    assert!(ch.finish(BinderStatus::Success).is_ok());
    assert_eq!(ch.drain(), vec![0xAB]);
}

#[test]
fn dump_round_trip_multi_chunk_beyond_pipe_buffer() {
    // More than a pipe buffer's worth (64 KiB), in several chunks.
    let mut ch = DumpChannel::new();
    let mut expected = Vec::new();
    for round in 0..9u8 {
        let chunk = vec![round; 10_000];
        expected.extend_from_slice(&chunk);
        ch.write_chunk(&chunk);
    }
    assert!(ch.finish(BinderStatus::Success).is_ok());
    let drained = ch.drain();
    assert_eq!(drained.len(), 90_000);
    assert_eq!(drained, expected);
}

#[test]
fn dump_failure_still_closes_the_channel() {
    let mut ch = DumpChannel::new();
    ch.write_chunk(&b"partial".to_vec());
    let r = ch.finish(BinderStatus::FailedTransaction);
    assert_eq!(r.unwrap_err(), BinderStatus::FailedTransaction);
    // The drain terminates (end-of-stream was signalled) even though the
    // callback failed.
    assert_eq!(ch.drain(), b"partial".to_vec());
}

#[test]
fn dump_flow_with_registered_handler() {
    let mut host = Host::new();
    let cls = IBinderClass::define(&mut host, &descriptor_bytes("com.example.IDump")).unwrap();
    cls.set_on_dump(&mut host);
    let handle = host.new_object(&cls, 0);
    let mut ch = DumpChannel::new();
    match handle.dump_disposition(&host).expect("object is alive") {
        DumpDisposition::Invoke(c) => {
            assert_eq!(c, cls);
            // The registered dump closure runs here and writes its text.
            ch.write_chunk(&b"state: idle\n".to_vec());
        }
        other => panic!("expected a handler invocation, got {:?}", other),
    }
    assert!(ch.finish(BinderStatus::Success).is_ok());
    assert_eq!(ch.drain(), b"state: idle\n".to_vec());
}

#[test]
fn dump_flow_without_handler_dumps_nothing() {
    let mut host = Host::new();
    let cls = IBinderClass::define(&mut host, &descriptor_bytes("com.example.IQuiet")).unwrap();
    let handle = host.new_object(&cls, 0);
    let mut ch = DumpChannel::new();
    assert_eq!(
        handle.dump_disposition(&host).expect("object is alive"),
        DumpDisposition::NoHandler
    );
    assert!(ch.finish(BinderStatus::Success).is_ok());
    assert!(ch.drain().is_empty());
}

#[test]
fn dump_flow_on_remote_proxy_is_forwarded() {
    let mut host = Host::new();
    let raw = host.adopt_remote_object();
    let handle = IBinder::from_ptr(&mut host, raw).unwrap();
    assert_eq!(
        handle.dump_disposition(&host).expect("object is alive"),
        DumpDisposition::Remote
    );
}

#[test]
fn dump_flow_on_dead_object_is_refused() {
    let mut host = Host::new();
    let cls = IBinderClass::define(&mut host, &descriptor_bytes("com.example.IGone")).unwrap();
    let handle = host.new_object(&cls, 9);
    assert_eq!(handle.release(&mut host), Some(9));
    let stale = IBinder::borrow_raw(&host, 1).unwrap();
    assert_eq!(
        stale.dump_disposition(&host).unwrap_err(),
        BinderStatus::DeadObject
    );
}

#[test]
fn dump_args_reject_interior_nul() {
    assert!(check_dump_args(&vec![b"verbose".to_vec(), Vec::new()]));
    assert!(!check_dump_args(&vec![b"ver\0bose".to_vec()]));
}

#[test]
fn status_codes_round_trip() {
    let all = [
        BinderStatus::Success,
        BinderStatus::UnknownError,
        BinderStatus::NoMemory,
        BinderStatus::InvalidOperation,
        BinderStatus::BadValue,
        BinderStatus::BadType,
        BinderStatus::NameNotFound,
        BinderStatus::PermissionDenied,
        BinderStatus::NoInit,
        BinderStatus::AlreadyExists,
        BinderStatus::DeadObject,
        BinderStatus::FailedTransaction,
        BinderStatus::UnknownTransaction,
        BinderStatus::BadIndex,
        BinderStatus::FdsNotAllowed,
        BinderStatus::UnexpectedNull,
    ];
    for s in all {
        assert_eq!(BinderStatus::from_code(s.code()), Some(s));
    }
    assert_eq!(BinderStatus::Success.code(), 0);
    assert_eq!(BinderStatus::DeadObject.code(), -32);
    assert_eq!(BinderStatus::UnknownError.code(), i32::MIN);
}

#[test]
fn status_from_unknown_code_is_none() {
    assert_eq!(BinderStatus::from_code(42), None);
    assert_eq!(BinderStatus::from_code(-3), None);
}

#[test]
fn parcel_carries_bytes_intact() {
    let mut p = Parcel::new();
    assert!(p.is_empty());
    p.append_bytes(&b"ab".to_vec());
    p.append_bytes(&b"cd".to_vec());
    assert_eq!(p.len(), 4);
    assert_eq!(p.as_bytes().as_slice(), b"abcd");
    assert_eq!(p.byte_at(3), b'd');
    let q = Parcel::from_bytes(b"xyz".to_vec());
    assert_eq!(q.as_bytes().as_slice(), b"xyz");
}

#[test]
fn liveness_through_mixed_reference_traffic() {
    let mut host = Host::new();
    let cls = IBinderClass::define(&mut host, &descriptor_bytes("com.example.IRefs")).unwrap();
    let first = host.new_object(&cls, 77);
    // The object's raw identity is the first slot.
    let adopted = IBinder::from_ptr(&mut host, 1).expect("object is alive");
    let cloned = adopted.clone_handle(&mut host);
    assert!(first.is_alive(&host));
    assert!(first.release(&mut host).is_none());
    assert!(cloned.release(&mut host).is_none());
    assert!(adopted.is_alive(&host));
    assert_eq!(adopted.release(&mut host), Some(77));
    assert!(IBinder::from_ptr(&mut host, 1).is_none());
}
#[test]
fn utf8_checker_agrees_with_std_on_short_inputs() {
    for a in 0..=255u8 {
        let one = vec![a];
        assert_eq!(check_utf8(&one), std::str::from_utf8(&one).is_ok(), "byte {a:#04x}");
        for b in 0..=255u8 {
            let two = vec![a, b];
            assert_eq!(
                check_utf8(&two),
                std::str::from_utf8(&two).is_ok(),
                "bytes {a:#04x} {b:#04x}"
            );
        }
    }
}

#[test]
fn utf8_checker_agrees_with_std_on_boundary_sequences() {
    let leads = [0xE0u8, 0xE1, 0xEC, 0xED, 0xEE, 0xEF, 0xF0, 0xF1, 0xF3, 0xF4];
    let follows = [0x7Fu8, 0x80, 0x8F, 0x90, 0x9F, 0xA0, 0xBF, 0xC0];
    for lead in leads {
        for b in follows {
            for c in follows {
                let three = vec![lead, b, c];
                assert_eq!(
                    check_utf8(&three),
                    std::str::from_utf8(&three).is_ok(),
                    "bytes {lead:#04x} {b:#04x} {c:#04x}"
                );
                for d in follows {
                    let four = vec![lead, b, c, d];
                    assert_eq!(
                        check_utf8(&four),
                        std::str::from_utf8(&four).is_ok(),
                        "bytes {lead:#04x} {b:#04x} {c:#04x} {d:#04x}"
                    );
                }
            }
        }
    }
}
