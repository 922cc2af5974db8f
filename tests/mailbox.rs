use lunatic::{make_request, reply_to, Envelope, ProcessId, Reply, ReplyBuffer, TagGenerator};

#[test]
fn replies_reach_their_own_request_in_either_order() {
    for reversed in [false, true] {
        let mut tags = TagGenerator::new();
        let me = ProcessId { id: 1 };
        let (t1, _) = make_request(&mut tags, me, "first");
        let (t2, _) = make_request(&mut tags, me, "second");
        assert_ne!(t1, t2);
        let mut buf = ReplyBuffer::new();
        if reversed {
            buf.deliver(Reply { tag: t2, payload: 200u32 });
            buf.deliver(Reply { tag: t1, payload: 100u32 });
        } else {
            buf.deliver(Reply { tag: t1, payload: 100u32 });
            buf.deliver(Reply { tag: t2, payload: 200u32 });
        }
        assert_eq!(buf.take_reply(t1), Some(100));
        assert_eq!(buf.len(), 1);
        assert_eq!(buf.take_reply(t2), Some(200));
        assert_eq!(buf.len(), 0);
    }
}

#[test]
fn missing_reply_leaves_buffer_alone() {
    let mut tags = TagGenerator::new();
    let (t1, _) = make_request(&mut tags, ProcessId { id: 1 }, ());
    let (t2, _) = make_request(&mut tags, ProcessId { id: 1 }, ());
    let mut buf = ReplyBuffer::new();
    buf.deliver(Reply { tag: t2, payload: 'x' });
    assert_eq!(buf.take_reply(t1), None);
    assert_eq!(buf.len(), 1);
    assert_eq!(buf.take_reply(t2), Some('x'));
    assert_eq!(buf.take_reply(t2), None);
}

#[test]
fn request_is_answered_under_its_tag() {
    let mut tags = TagGenerator::new();
    let asker = ProcessId { id: 7 };
    let (t, env) = make_request(&mut tags, asker, 5i32);
    match &env {
        Envelope::Request { tag, from, body } => {
            assert_eq!(*tag, t);
            assert_eq!(*from, asker);
            assert_eq!(*body, 5);
        }
        Envelope::Message(_) => panic!("expected a request"),
    }
    let (to, reply) = reply_to(&env, "done").unwrap();
    assert_eq!(to, asker);
    assert_eq!(reply.tag, t);
    assert_eq!(reply.payload, "done");
}

#[test]
fn message_gets_no_reply() {
    let env: Envelope<i32> = Envelope::Message(3);
    assert!(reply_to(&env, 0u8).is_none());
}
