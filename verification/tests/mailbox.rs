use knotty::mailbox::Mailbox;

#[test]
fn publish_over_an_unconsumed_value_discards_it() {
    let mut mailbox = Mailbox::new();

    mailbox.publish(1);
    mailbox.publish(2);

    assert_eq!(mailbox.take(), Some(2));
    assert_eq!(mailbox.take(), None);
}

#[test]
fn a_new_mailbox_holds_nothing() {
    let mut mailbox: Mailbox<u8> = Mailbox::default();
    assert_eq!(mailbox.take(), None);
}

#[test]
fn a_value_taken_is_the_last_one_published_after_the_last_take() {
    let mut mailbox = Mailbox::new();
    mailbox.publish("a");
    assert_eq!(mailbox.take(), Some("a"));
    mailbox.publish("b");
    mailbox.publish("c");
    mailbox.publish("d");
    assert_eq!(mailbox.take(), Some("d"));
}
