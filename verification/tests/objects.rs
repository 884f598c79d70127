use tmtc_core::cfdp_dest::{
    DestError, DestinationHandler, FileDirectiveType, MetadataGenericParams, MetadataPdu, PduType,
    State, TransactionStep,
};
use tmtc_core::mode::{ModeAndSubmode, ModeCommand, ModeRequest};
use tmtc_core::objects::{ManagedSystemObject, ObjectId, ObjectManager, SystemObject};
use tmtc_core::spacepackets::{ByteConversionError, SizeMissmatch};

struct ExampleSysObj {
    id: ObjectId,
    dummy: u32,
    was_initialized: bool,
}

impl ExampleSysObj {
    fn new(id: ObjectId, dummy: u32) -> ExampleSysObj {
        ExampleSysObj {
            id,
            dummy,
            was_initialized: false,
        }
    }
}

struct OtherExampleObject {
    id: ObjectId,
    string: String,
    was_initialized: bool,
}

/// The objects of the test, as the one kind of object that the manager keeps.
enum TestObject {
    Example(ExampleSysObj),
    Other(OtherExampleObject),
}

impl TestObject {
    fn example(&self) -> Option<&ExampleSysObj> {
        match self {
            TestObject::Example(o) => Some(o),
            _ => None,
        }
    }

    fn other(&self) -> Option<&OtherExampleObject> {
        match self {
            TestObject::Other(o) => Some(o),
            _ => None,
        }
    }
}

impl SystemObject for TestObject {
    type Error = String;

    fn get_object_id(&self) -> &ObjectId {
        match self {
            TestObject::Example(o) => &o.id,
            TestObject::Other(o) => &o.id,
        }
    }

    fn initialize(&mut self) -> Result<(), String> {
        match self {
            TestObject::Example(o) => o.was_initialized = true,
            TestObject::Other(o) => o.was_initialized = true,
        }
        Ok(())
    }
}

impl ManagedSystemObject for TestObject {}

#[test]
fn test_obj_manager_simple() {
    let mut obj_manager = ObjectManager::new();
    let expl_obj_id = ObjectId {
        id: 0,
        name: "Example 0",
    };
    let example_obj = ExampleSysObj::new(expl_obj_id, 42);
    assert!(obj_manager.insert(TestObject::Example(example_obj)));
    let res = obj_manager.initialize();
    assert_eq!(res, 1);
    let obj_back_casted: Option<&ExampleSysObj> =
        obj_manager.get(&expl_obj_id).and_then(|o| o.example());
    assert!(obj_back_casted.is_some());
    let expl_obj_back_casted = obj_back_casted.unwrap();
    assert_eq!(expl_obj_back_casted.dummy, 42);
    assert!(expl_obj_back_casted.was_initialized);

    let second_obj_id = ObjectId {
        id: 12,
        name: "Example 1",
    };
    let second_example_obj = OtherExampleObject {
        id: second_obj_id,
        string: String::from("Hello Test"),
        was_initialized: false,
    };

    assert!(obj_manager.insert(TestObject::Other(second_example_obj)));
    let res = obj_manager.initialize();
    assert_eq!(res, 2);
    let obj_back_casted: Option<&OtherExampleObject> =
        obj_manager.get(&second_obj_id).and_then(|o| o.other());
    assert!(obj_back_casted.is_some());
    let expl_obj_back_casted = obj_back_casted.unwrap();
    assert_eq!(expl_obj_back_casted.string, String::from("Hello Test"));
    assert!(expl_obj_back_casted.was_initialized);

    let existing_obj_id = ObjectId {
        id: 12,
        name: "Example 1",
    };
    let invalid_obj = OtherExampleObject {
        id: existing_obj_id,
        string: String::from("Hello Test"),
        was_initialized: false,
    };

    assert!(!obj_manager.insert(TestObject::Other(invalid_obj)));
    // An object of one kind is not found as an object of the other kind.
    assert!(obj_manager.get(&second_obj_id).and_then(|o| o.example()).is_none());
    assert!(obj_manager.get(&ObjectId { id: 13, name: "nobody" }).is_none());
}

#[test]
fn dest_test_basic() {
    let dest_handler = DestinationHandler::new();
    assert_eq!(dest_handler.state(), State::Idle);
    assert_eq!(dest_handler.step(), TransactionStep::Idle);
}

#[test]
fn dest_handler_takes_metadata() {
    let mut dest_handler = DestinationHandler::new();
    let params = MetadataGenericParams { closure_requested: true, checksum_type: 1, file_size: 64 };
    let pdu = MetadataPdu {
        metadata_params: params,
        src_file_name: b"a.txt".to_vec(),
        dest_file_name: b"b.txt".to_vec(),
    };
    assert_eq!(
        dest_handler.insert_packet(PduType::FileDirective, None, None),
        Err(DestError::DirectiveExpected)
    );
    assert_eq!(
        dest_handler.insert_packet(PduType::FileDirective, Some(FileDirectiveType::EofPdu), None),
        Err(DestError::CantProcessPacketType(FileDirectiveType::EofPdu))
    );
    assert_eq!(dest_handler.insert_packet(PduType::FileData, None, None), Ok(()));
    assert_eq!(
        dest_handler.insert_packet(
            PduType::FileDirective,
            Some(FileDirectiveType::MetadataPdu),
            Some(&pdu)
        ),
        Ok(())
    );
    let no_src = MetadataPdu { metadata_params: params, src_file_name: vec![], dest_file_name: vec![1] };
    assert_eq!(dest_handler.handle_metadata_pdu(&no_src), Err(DestError::EmptySrcFileField));
    // As a directive the PDU is taken all the same: the reason is dropped.
    assert_eq!(
        dest_handler.insert_packet(
            PduType::FileDirective,
            Some(FileDirectiveType::MetadataPdu),
            Some(&no_src)
        ),
        Ok(())
    );
    let no_dest = MetadataPdu { metadata_params: params, src_file_name: vec![1], dest_file_name: vec![] };
    assert_eq!(dest_handler.handle_metadata_pdu(&no_dest), Err(DestError::EmptyDestFileField));
    let long = MetadataPdu {
        metadata_params: params,
        src_file_name: vec![b'x'; 256],
        dest_file_name: vec![1],
    };
    assert_eq!(dest_handler.handle_metadata_pdu(&long), Err(DestError::FileNameTooLong));
    assert_eq!(dest_handler.handle_file_data(), Ok(()));
    assert_eq!(dest_handler.handle_eof_pdu(), Ok(()));
    assert_eq!(dest_handler.state(), State::Idle);
}

#[test]
fn mode_from_bytes() {
    assert_eq!(ModeAndSubmode::raw_len(), 6);
    let m = ModeAndSubmode::from_be_bytes(&[0, 0, 1, 2, 0, 3, 9]).unwrap();
    assert_eq!(m, ModeAndSubmode::new(0x0102, 3));
    assert_eq!((m.mode(), m.submode()), (0x0102, 3));
    assert_eq!(ModeAndSubmode::new_mode_only(5), ModeAndSubmode::new(5, 0));
    assert_eq!(
        ModeAndSubmode::from_be_bytes(&[0, 0, 1, 2, 0]),
        Err(ByteConversionError::FromSliceTooSmall(SizeMissmatch { expected: 6, found: 5 }))
    );
    let cmd = ModeCommand::new(7, m);
    assert_eq!((cmd.address(), cmd.mode_submode()), (7, m));
    assert_ne!(ModeRequest::SetMode(cmd), ModeRequest::ReadMode(7));
}

/// An object that counts how often it was initialized, and fails where it is told so.
struct Counted {
    id: ObjectId,
    calls: u32,
    fails: bool,
}

impl SystemObject for Counted {
    type Error = ();

    fn get_object_id(&self) -> &ObjectId {
        &self.id
    }

    fn initialize(&mut self) -> Result<(), ()> {
        self.calls += 1;
        if self.fails {
            Err(())
        } else {
            Ok(())
        }
    }
}

impl ManagedSystemObject for Counted {}

#[test]
fn every_object_is_initialized_once() {
    let mut manager = ObjectManager::new();
    for (id, fails) in [(3, false), (1, true), (7, false), (2, true), (9, false)] {
        assert!(manager.insert(Counted { id: ObjectId { id, name: "counted" }, calls: 0, fails }));
    }
    // The failures are not counted and stop nothing.
    assert_eq!(manager.initialize(), 3);
    for id in [3, 1, 7, 2, 9] {
        assert_eq!(manager.get(&ObjectId { id, name: "counted" }).unwrap().calls, 1);
    }
    assert_eq!(manager.initialize(), 3);
    assert_eq!(manager.get(&ObjectId { id: 2, name: "counted" }).unwrap().calls, 2);
    assert_eq!(ObjectManager::<Counted>::new().initialize(), 0);
}
