use std::sync::mpsc::{channel, Receiver, SendError, Sender};
use tmtc_core::event_man::{
    note_delivery, DefaultListenerTableProvider, DefaultSenderTableProvider, EventManager,
    EventRoutingError, EventRoutingResult, ListenerKey, ListenerTable, MpscEventReceiver,
    MpscEventSendProvider, SendEventProvider, SenderTable,
};
use tmtc_core::events::{EventU32, GenericEvent, Severity};
use tmtc_core::params::{Params, ParamsHeapless, ParamsRaw};

type EventU32WithAuxData = (EventU32, Option<Params>);

#[derive(Clone)]
struct MpscEventSenderQueue {
    id: u32,
    mpsc_sender: Sender<EventU32WithAuxData>,
}

impl MpscEventSenderQueue {
    fn new(id: u32, mpsc_sender: Sender<EventU32WithAuxData>) -> Self {
        Self { id, mpsc_sender }
    }
}

impl SendEventProvider<EventU32, Params> for MpscEventSenderQueue {
    type Error = SendError<EventU32WithAuxData>;

    fn id(&self) -> u32 {
        self.id
    }
    fn send(&mut self, event: EventU32, aux_data: Option<Params>) -> Result<(), Self::Error> {
        self.mpsc_sender.send((event, aux_data))
    }
}

type TestManager<S> = EventManager<
    EventU32,
    Params,
    S,
    DefaultListenerTableProvider,
    DefaultSenderTableProvider<EventU32, Params, S>,
    MpscEventReceiver<EventU32>,
>;

fn check_next_event(
    expected: EventU32,
    receiver: &Receiver<EventU32WithAuxData>,
) -> Option<Params> {
    if let Ok(event) = receiver.try_recv() {
        assert_eq!(event.0, expected);
        return event.1;
    }
    None
}

fn check_handled_event(
    res: EventRoutingResult<EventU32, Params>,
    expected: EventU32,
    expected_num_sent: u32,
) {
    assert!(matches!(res, EventRoutingResult::Handled { .. }));
    if let EventRoutingResult::Handled(num_recipients, event, _aux_data) = res {
        assert_eq!(event, expected);
        assert_eq!(num_recipients, expected_num_sent);
    }
}

fn generic_event_man() -> (
    Sender<EventU32WithAuxData>,
    TestManager<MpscEventSenderQueue>,
) {
    let (event_sender, manager_queue) = channel();
    let event_man_receiver = MpscEventReceiver::new(manager_queue);
    (event_sender, EventManager::new(event_man_receiver))
}

#[test]
fn event_man_test_basic() {
    let (event_sender, mut event_man) = generic_event_man();
    let event_grp_0 = EventU32::new(Severity::INFO, 0, 0).unwrap();
    let event_grp_1_0 = EventU32::new(Severity::HIGH, 1, 0).unwrap();
    let (single_event_sender, single_event_receiver) = channel();
    let single_event_listener = MpscEventSenderQueue::new(0, single_event_sender);
    event_man.subscribe_single(&event_grp_0, single_event_listener.id());
    event_man.add_sender(single_event_listener);
    let (group_event_sender_0, group_event_receiver_0) = channel();
    let group_event_listener = MpscEventSenderQueue {
        id: 1,
        mpsc_sender: group_event_sender_0,
    };
    event_man.subscribe_group(event_grp_1_0.group_id(), group_event_listener.id());
    event_man.add_sender(group_event_listener);

    // Test event with one listener
    event_sender
        .send((event_grp_0, None))
        .expect("Sending single error failed");
    let res = event_man.try_event_handling();
    assert!(res.is_ok());
    check_handled_event(res.unwrap(), event_grp_0, 1);
    check_next_event(event_grp_0, &single_event_receiver);

    // Test event which is sent to all group listeners
    event_sender
        .send((event_grp_1_0, None))
        .expect("Sending group error failed");
    let res = event_man.try_event_handling();
    assert!(res.is_ok());
    check_handled_event(res.unwrap(), event_grp_1_0, 1);
    check_next_event(event_grp_1_0, &group_event_receiver_0);
}

#[test]
fn test_with_basic_aux_data() {
    let (event_sender, mut event_man) = generic_event_man();
    let event_grp_0 = EventU32::new(Severity::INFO, 0, 0).unwrap();
    let (single_event_sender, single_event_receiver) = channel();
    let single_event_listener = MpscEventSenderQueue::new(0, single_event_sender);
    event_man.subscribe_single(&event_grp_0, single_event_listener.id());
    event_man.add_sender(single_event_listener);
    event_sender
        .send((event_grp_0, Some(Params::Heapless((2_u32, 3_u32).into()))))
        .expect("Sending group error failed");
    let res = event_man.try_event_handling();
    assert!(res.is_ok());
    check_handled_event(res.unwrap(), event_grp_0, 1);
    let aux = check_next_event(event_grp_0, &single_event_receiver);
    assert!(aux.is_some());
    let aux = aux.unwrap();
    if let Params::Heapless(ParamsHeapless::Raw(ParamsRaw::U32Pair(pair))) = aux {
        assert_eq!(pair.0, 2);
        assert_eq!(pair.1, 3);
    } else {
        panic!("{}", format!("Unexpected auxiliary value type {:?}", aux));
    }
}

/// Test listening for multiple groups
#[test]
fn test_multi_group() {
    let (event_sender, mut event_man) = generic_event_man();
    let res = event_man.try_event_handling();
    assert!(res.is_ok());
    let hres = res.unwrap();
    assert!(matches!(hres, EventRoutingResult::Empty));

    let event_grp_0 = EventU32::new(Severity::INFO, 0, 0).unwrap();
    let event_grp_1_0 = EventU32::new(Severity::HIGH, 1, 0).unwrap();
    let (event_grp_0_sender, event_grp_0_receiver) = channel();
    let event_grp_0_and_1_listener = MpscEventSenderQueue {
        id: 0,
        mpsc_sender: event_grp_0_sender,
    };
    event_man.subscribe_group(event_grp_0.group_id(), event_grp_0_and_1_listener.id());
    event_man.subscribe_group(event_grp_1_0.group_id(), event_grp_0_and_1_listener.id());
    event_man.add_sender(event_grp_0_and_1_listener);

    event_sender
        .send((event_grp_0, None))
        .expect("Sending Event Group 0 failed");
    event_sender
        .send((event_grp_1_0, None))
        .expect("Sendign Event Group 1 failed");
    let res = event_man.try_event_handling();
    assert!(res.is_ok());
    check_handled_event(res.unwrap(), event_grp_0, 1);
    let res = event_man.try_event_handling();
    assert!(res.is_ok());
    check_handled_event(res.unwrap(), event_grp_1_0, 1);

    check_next_event(event_grp_0, &event_grp_0_receiver);
    check_next_event(event_grp_1_0, &event_grp_0_receiver);
}

/// Test listening to the same event from multiple listeners. Also test listening
/// to both group and single events from one listener
#[test]
fn test_listening_to_same_event_and_multi_type() {
    let (event_sender, mut event_man) = generic_event_man();
    let event_0 = EventU32::new(Severity::INFO, 0, 5).unwrap();
    let event_1 = EventU32::new(Severity::HIGH, 1, 0).unwrap();
    let (event_0_tx_0, event_0_rx_0) = channel();
    let (event_0_tx_1, event_0_rx_1) = channel();
    let event_listener_0 = MpscEventSenderQueue {
        id: 0,
        mpsc_sender: event_0_tx_0,
    };
    let event_listener_1 = MpscEventSenderQueue {
        id: 1,
        mpsc_sender: event_0_tx_1,
    };
    let event_listener_0_sender_id = event_listener_0.id();
    event_man.subscribe_single(&event_0, event_listener_0_sender_id);
    event_man.add_sender(event_listener_0);
    let event_listener_1_sender_id = event_listener_1.id();
    event_man.subscribe_single(&event_0, event_listener_1_sender_id);
    event_man.add_sender(event_listener_1);
    event_sender
        .send((event_0, None))
        .expect("Triggering Event 0 failed");
    let res = event_man.try_event_handling();
    assert!(res.is_ok());
    check_handled_event(res.unwrap(), event_0, 2);
    check_next_event(event_0, &event_0_rx_0);
    check_next_event(event_0, &event_0_rx_1);
    event_man.subscribe_group(event_1.group_id(), event_listener_0_sender_id);
    event_sender
        .send((event_0, None))
        .expect("Triggering Event 0 failed");
    event_sender
        .send((event_1, None))
        .expect("Triggering Event 1 failed");

    // 3 Events messages will be sent now
    let res = event_man.try_event_handling();
    assert!(res.is_ok());
    check_handled_event(res.unwrap(), event_0, 2);
    let res = event_man.try_event_handling();
    assert!(res.is_ok());
    check_handled_event(res.unwrap(), event_1, 1);
    // Both the single event and the group event should arrive now
    check_next_event(event_0, &event_0_rx_0);
    check_next_event(event_1, &event_0_rx_0);

    // Do double insertion and then remove duplicates
    event_man.subscribe_group(event_1.group_id(), event_listener_0_sender_id);
    event_man.remove_duplicates(&ListenerKey::Group(event_1.group_id()));
    event_sender
        .send((event_1, None))
        .expect("Triggering Event 1 failed");
    let res = event_man.try_event_handling();
    assert!(res.is_ok());
    check_handled_event(res.unwrap(), event_1, 1);
}

#[test]
fn test_all_events_listener() {
    let (event_sender, manager_queue) = channel();
    let event_man_receiver = MpscEventReceiver::new(manager_queue);
    let mut event_man: TestManager<MpscEventSenderQueue> = EventManager::new(event_man_receiver);
    let event_0 = EventU32::new(Severity::INFO, 0, 5).unwrap();
    let event_1 = EventU32::new(Severity::HIGH, 1, 0).unwrap();
    let (event_0_tx_0, all_events_rx) = channel();
    let all_events_listener = MpscEventSenderQueue {
        id: 0,
        mpsc_sender: event_0_tx_0,
    };
    event_man.subscribe_all(all_events_listener.id());
    event_man.add_sender(all_events_listener);
    event_sender
        .send((event_0, None))
        .expect("Triggering event 0 failed");
    event_sender
        .send((event_1, None))
        .expect("Triggering event 1 failed");
    let res = event_man.try_event_handling();
    assert!(res.is_ok());
    check_handled_event(res.unwrap(), event_0, 1);
    let res = event_man.try_event_handling();
    assert!(res.is_ok());
    check_handled_event(res.unwrap(), event_1, 1);
    check_next_event(event_0, &all_events_rx);
    check_next_event(event_1, &all_events_rx);
}

#[test]
fn event_fan_out() {
    // Listener 0 listens to the groups 1 and 0, listener 1 to one event of group 0.
    let (event_sender, manager_queue) = channel();
    let mut event_man: TestManager<MpscEventSendProvider<EventU32>> =
        EventManager::new(MpscEventReceiver::new(manager_queue));
    let e0 = EventU32::new(Severity::INFO, 0, 0).unwrap();
    let e1 = EventU32::new(Severity::LOW, 1, 0).unwrap();
    let (tx0, rx0) = channel();
    let (tx1, rx1) = channel();
    let l0 = MpscEventSendProvider::new(0, tx0);
    let l1 = MpscEventSendProvider::new(1, tx1);
    event_man.subscribe_group(1, l0.id());
    event_man.subscribe_group(0, l0.id());
    event_man.subscribe_single(&e0, l1.id());
    event_man.add_sender(l0);
    event_man.add_sender(l1);
    assert_eq!(event_man.recipients_for(&e0), vec![1, 0]);
    assert_eq!(event_man.recipients_for(&e1), vec![0]);
    event_sender.send((e0, None)).unwrap();
    event_sender.send((e1, None)).unwrap();
    check_handled_event(event_man.try_event_handling().unwrap(), e0, 2);
    check_handled_event(event_man.try_event_handling().unwrap(), e1, 1);
    assert_eq!(rx0.try_recv().unwrap().0, e0);
    assert_eq!(rx0.try_recv().unwrap().0, e1);
    assert!(rx0.try_recv().is_err());
    assert_eq!(rx1.try_recv().unwrap().0, e0);
    assert!(rx1.try_recv().is_err());
}

#[test]
fn event_routing_errors_are_kept() {
    let (event_sender, manager_queue) = channel();
    let mut event_man: TestManager<MpscEventSendProvider<EventU32>> =
        EventManager::new(MpscEventReceiver::new(manager_queue));
    let e0 = EventU32::new(Severity::MEDIUM, 3, 9).unwrap();
    let (tx0, rx0) = channel();
    let (tx1, rx1) = channel();
    let l0 = MpscEventSendProvider::new(0, tx0);
    let l1 = MpscEventSendProvider::new(1, tx1);
    let l1_twin = l1.duplicate();
    assert_eq!(l1_twin.id(), 1);
    event_man.subscribe_all(0);
    event_man.subscribe_all(1);
    event_man.subscribe_all(17);
    event_man.subscribe_all(18);
    event_man.subscribe_all(19);
    event_man.subscribe_all(20);
    event_man.add_sender(l0);
    event_man.add_sender(l1);
    // A second sender with a known identifier is dropped.
    event_man.add_sender(l1_twin);
    // Listener 1 has hung up.
    drop(rx1);
    event_sender.send((e0, Some(Params::Vec(vec![1, 2, 3])))).unwrap();
    let res = event_man.try_event_handling();
    let err = res.unwrap_err();
    check_handled_event(err.result, e0, 1);
    assert!(matches!(err.errors[0], Some(EventRoutingError::SendError(_))));
    assert!(matches!(err.errors[1], Some(EventRoutingError::NoSenderForId(17))));
    assert!(matches!(err.errors[2], Some(EventRoutingError::NoSenderForId(18))));
    let (event, aux) = rx0.try_recv().unwrap();
    assert_eq!(event, e0);
    assert_eq!(aux, Some(Params::Vec(vec![1, 2, 3])));
    assert_eq!(e0.raw_as_largest_type(), (2 << 30) | (3 << 16) | 9);
}

#[test]
fn listener_table_keeps_order_and_removes_duplicates() {
    let mut table = DefaultListenerTableProvider::new();
    let key = ListenerKey::Group(4);
    assert!(!table.contains_listener(&key));
    assert!(table.get_listener_ids(&key).is_none());
    assert!(table.add_listener(key, 9));
    assert!(table.add_listener(key, 3));
    assert!(table.add_listener(key, 9));
    assert!(table.add_listener(ListenerKey::All, 1));
    assert!(table.add_listener(ListenerKey::Single(77), 2));
    assert_eq!(table.get_listener_ids(&key).unwrap(), vec![9, 3, 9]);
    table.remove_duplicates(&key);
    assert_eq!(table.get_listener_ids(&key).unwrap(), vec![3, 9]);
    table.remove_duplicates(&ListenerKey::Group(5));
    let mut keys = table.get_listeners();
    keys.sort_by_key(|k| match k {
        ListenerKey::Single(raw) => *raw as u64,
        ListenerKey::Group(g) => 0x1_0000_0000 + *g as u64,
        ListenerKey::All => 0x2_0000_0000,
    });
    assert_eq!(keys, vec![ListenerKey::Single(77), key, ListenerKey::All]);
}

#[test]
fn sender_table_finds_senders_by_id() {
    let mut table: DefaultSenderTableProvider<EventU32, Params, MpscEventSendProvider<EventU32>> =
        DefaultSenderTableProvider::new();
    let (tx, rx) = channel();
    assert!(!table.contains_send_event_provider(&5));
    assert!(table.add_send_event_provider(MpscEventSendProvider::new(5, tx.clone())));
    assert!(!table.add_send_event_provider(MpscEventSendProvider::new(5, tx)));
    assert!(table.contains_send_event_provider(&5));
    assert!(table.get_send_event_provider(&6).is_none());
    let e = EventU32::new(Severity::HIGH, 2, 1).unwrap();
    table.get_send_event_provider(&5).unwrap().send_no_data(e).unwrap();
    assert_eq!(rx.try_recv().unwrap(), (e, None));
}

/// A sender that counts what it is offered and takes nothing where it is told so.
struct CountingSender {
    id: u32,
    offered: u32,
    taken: Vec<EventU32WithAuxData>,
    refuse: bool,
}

impl SendEventProvider<EventU32, Params> for CountingSender {
    type Error = u8;

    fn id(&self) -> u32 {
        self.id
    }

    fn send(&mut self, event: EventU32, aux_data: Option<Params>) -> Result<(), u8> {
        self.offered += 1;
        if self.refuse {
            return Err(7);
        }
        self.taken.push((event, aux_data));
        Ok(())
    }
}

#[test]
fn routing_notes_the_first_three_errors() {
    let (_event_sender, manager_queue) = channel::<EventU32WithAuxData>();
    let mut event_man: TestManager<CountingSender> =
        EventManager::new(MpscEventReceiver::new(manager_queue));
    let event = EventU32::new(Severity::LOW, 2, 1).unwrap();
    // Every subscription takes effect with the table of the default kind.
    assert!(event_man.subscribe_single(&event, 5));
    assert!(event_man.subscribe_single(&event, 9));
    assert!(event_man.subscribe_group(2, 6));
    assert!(event_man.subscribe_group(2, 5));
    assert!(event_man.subscribe_all(9));
    assert!(event_man.subscribe_all(8));
    assert!(event_man.subscribe_all(5));
    assert_eq!(event_man.recipients_for(&event), vec![5, 9, 6, 5, 9, 8, 5]);
    event_man.add_sender(CountingSender { id: 5, offered: 0, taken: vec![], refuse: false });
    event_man.add_sender(CountingSender { id: 6, offered: 0, taken: vec![], refuse: true });
    let err = event_man.route_event(event, Some(Params::Vec(vec![4]))).unwrap_err();
    // Three deliveries to sender 5 worked; 9, 6, 9 and 8 failed, in that order.
    check_handled_event(err.result, event, 3);
    assert!(matches!(err.errors[0], Some(EventRoutingError::NoSenderForId(9))));
    assert!(matches!(err.errors[1], Some(EventRoutingError::SendError(7))));
    assert!(matches!(err.errors[2], Some(EventRoutingError::NoSenderForId(9))));
    // With one failure only the errors behind it are none.
    let (_event_sender, manager_queue) = channel::<EventU32WithAuxData>();
    let mut event_man: TestManager<CountingSender> =
        EventManager::new(MpscEventReceiver::new(manager_queue));
    assert!(event_man.subscribe_all(6));
    assert!(event_man.subscribe_all(6));
    assert!(event_man.subscribe_all(5));
    event_man.add_sender(CountingSender { id: 5, offered: 0, taken: vec![], refuse: false });
    let err = event_man.route_event(event, None).unwrap_err();
    check_handled_event(err.result, event, 1);
    assert!(matches!(err.errors[0], Some(EventRoutingError::NoSenderForId(6))));
    assert!(matches!(err.errors[1], Some(EventRoutingError::NoSenderForId(6))));
    assert!(err.errors[2].is_none());
}

#[test]
fn deliveries_are_noted_one_by_one() {
    let none: [Option<EventRoutingError<u8>>; 3] = [None, None, None];
    let (count, errors, err_idx) = note_delivery(Some(Ok(())), 4, 7, none, 0);
    assert_eq!((count, err_idx), (8, 0));
    assert!(errors.iter().all(|e| e.is_none()));
    let (count, errors, err_idx) = note_delivery(Some(Ok(())), 4, u32::MAX, errors, 0);
    assert_eq!((count, err_idx), (u32::MAX, 0));
    let (count, errors, err_idx) = note_delivery(Some(Err(9u8)), 4, 1, errors, 0);
    assert_eq!((count, err_idx), (1, 1));
    assert!(matches!(errors[0], Some(EventRoutingError::SendError(9))));
    let (count, errors, err_idx) = note_delivery(None, 4, 1, errors, 1);
    assert_eq!((count, err_idx), (1, 2));
    assert!(matches!(errors[1], Some(EventRoutingError::NoSenderForId(4))));
    let (_, errors, err_idx) = note_delivery(None, 5, 1, errors, 2);
    assert_eq!(err_idx, 3);
    // A fourth error is not kept.
    let (count, errors, err_idx) = note_delivery(Some(Err(1u8)), 6, 1, errors, 3);
    assert_eq!((count, err_idx), (1, 3));
    assert!(matches!(errors[0], Some(EventRoutingError::SendError(9))));
    assert!(matches!(errors[2], Some(EventRoutingError::NoSenderForId(5))));
}
