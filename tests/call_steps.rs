use ribosome::allocation::{AllocationDescriptor, DecodeError};
use ribosome::capability::{check_import, resolve, CapabilityFunction, ImportError, ValueKind};
use ribosome::driver::{input_word, load_module, CallContext, CallError, InvokeOutcome, JsonText};
use ribosome::encoding::{decode, encode, EncodedResult};
use ribosome::memory::{AllocError, SinglePageManager, PAGE_SIZE};

fn context_with(bytes: &[u8]) -> (CallContext, u64) {
    let mut call = CallContext::new("main".to_string(), SinglePageManager::new());
    let word = call.stage_input(Some(bytes.to_vec())).unwrap();
    (call, word)
}

#[test]
fn encoded_words_round_trip() {
    let values = [
        EncodedResult::Success,
        EncodedResult::Failure(1),
        EncodedResult::Failure(u32::MAX),
        EncodedResult::DataAt(AllocationDescriptor { offset: 0, length: 1 }),
        EncodedResult::DataAt(AllocationDescriptor { offset: u32::MAX, length: u32::MAX }),
        EncodedResult::DataAt(AllocationDescriptor { offset: 17, length: 300 }),
    ];
    for v in values {
        assert_eq!(decode(encode(v)), v);
    }
    for w in [0u64, 1, 1 << 32, u64::MAX, 0xdead_beef_0000_0000, 0x0000_0001_0000_0002] {
        assert_eq!(encode(decode(w)), w);
    }
}

#[test]
fn encoded_word_layout() {
    assert_eq!(encode(EncodedResult::Success), 0);
    assert_eq!(encode(EncodedResult::Failure(42)), 42u64 << 32);
    assert_eq!(
        encode(EncodedResult::DataAt(AllocationDescriptor { offset: 1, length: 2 })),
        (1u64 << 32) | 2
    );
    assert_eq!(decode(0), EncodedResult::Success);
    assert_eq!(decode(7u64 << 32), EncodedResult::Failure(7));
    assert_eq!(
        decode(5),
        EncodedResult::DataAt(AllocationDescriptor { offset: 0, length: 5 })
    );
}

#[test]
fn descriptor_from_encoded_value() {
    let d = AllocationDescriptor { offset: 10, length: 20 };
    assert_eq!(d.to_encoded(), EncodedResult::DataAt(d));
    assert_eq!(AllocationDescriptor::from_encoded(d.to_encoded(), PAGE_SIZE), Ok(d));
    assert_eq!(
        AllocationDescriptor::from_encoded(EncodedResult::Success, PAGE_SIZE),
        Err(DecodeError::NotAnAllocation)
    );
    assert_eq!(
        AllocationDescriptor::from_encoded(EncodedResult::Failure(3), PAGE_SIZE),
        Err(DecodeError::NotAnAllocation)
    );
    let empty = AllocationDescriptor { offset: 10, length: 0 };
    assert_eq!(
        AllocationDescriptor::from_encoded(empty.to_encoded(), PAGE_SIZE),
        Err(DecodeError::ZeroLength)
    );
    assert_eq!(
        AllocationDescriptor::from_encoded(d.to_encoded(), 29),
        Err(DecodeError::OutOfBounds)
    );
    assert_eq!(AllocationDescriptor::from_encoded(d.to_encoded(), 30), Ok(d));
}

#[test]
fn write_then_read_gives_the_bytes() {
    let mut m = SinglePageManager::new();
    assert_eq!(m.page().len(), PAGE_SIZE);
    let first = m.write(&b"hello".to_vec()).unwrap();
    assert_eq!(first, AllocationDescriptor { offset: 0, length: 5 });
    let second = m.write(&vec![9u8, 8, 7]).unwrap();
    assert_eq!(second, AllocationDescriptor { offset: 5, length: 3 });
    assert_eq!(m.top(), 8);
    assert_eq!(m.read(first).unwrap(), b"hello".to_vec());
    assert_eq!(m.read(second).unwrap(), vec![9u8, 8, 7]);
}

#[test]
fn write_of_a_full_page() {
    let mut m = SinglePageManager::new();
    let bytes: Vec<u8> = (0..PAGE_SIZE).map(|i| (i % 251) as u8).collect();
    let d = m.write(&bytes).unwrap();
    assert_eq!(d, AllocationDescriptor { offset: 0, length: PAGE_SIZE as u32 });
    assert_eq!(m.read(d).unwrap(), bytes);
    assert_eq!(m.write(&vec![1u8]), Err(AllocError::OutOfBounds));
}

#[test]
fn write_of_nothing_is_zero_length() {
    let mut m = SinglePageManager::new();
    assert_eq!(m.write(&Vec::new()), Err(AllocError::ZeroLength));
    assert_eq!(m.top(), 0);
    assert_eq!(input_word(Err(AllocError::ZeroLength)), Ok(0));
    assert_eq!(decode(0), EncodedResult::Success);
}

#[test]
fn write_past_the_page_fails() {
    let mut m = SinglePageManager::new();
    m.write(&vec![1u8; PAGE_SIZE - 2]).unwrap();
    assert_eq!(m.write(&vec![2u8; 3]), Err(AllocError::OutOfBounds));
    assert_eq!(m.top() as usize, PAGE_SIZE - 2);
    assert!(m.write(&vec![2u8; 2]).is_ok());
}

#[test]
fn read_past_the_page_fails() {
    let m = SinglePageManager::new();
    let d = AllocationDescriptor { offset: (PAGE_SIZE - 1) as u32, length: 2 };
    assert_eq!(m.read(d), Err(AllocError::OutOfBounds));
    let last = AllocationDescriptor { offset: (PAGE_SIZE - 1) as u32, length: 1 };
    assert_eq!(m.read(last), Ok(vec![0u8]));
}

#[test]
fn page_copies_must_be_one_page() {
    assert!(SinglePageManager::from_page(vec![0u8; 10]).is_none());
    let m = SinglePageManager::from_page(vec![3u8; PAGE_SIZE]).unwrap();
    assert_eq!(m.top(), 0);
    let mut m = m;
    m.write(&vec![1u8, 2]).unwrap();
    assert!(!m.replace_page(vec![0u8; 5]));
    assert_eq!(m.page()[0], 1);
    assert!(m.replace_page(vec![4u8; PAGE_SIZE]));
    assert_eq!(m.page()[0], 4);
    assert_eq!(m.top(), 2);
}

#[test]
fn input_staging() {
    let mut call = CallContext::new("f".to_string(), SinglePageManager::new());
    assert_eq!(call.stage_input(None), Ok(0));
    assert_eq!(call.stage_input(Some(Vec::new())), Ok(0));
    let word = call.stage_input(Some(b"abc".to_vec())).unwrap();
    assert_eq!(
        decode(word),
        EncodedResult::DataAt(AllocationDescriptor { offset: 0, length: 3 })
    );
    assert_eq!(&call.memory.page()[0..3], b"abc");
    let too_big = vec![0u8; PAGE_SIZE];
    assert_eq!(
        call.stage_input(Some(too_big)),
        Err(CallError::Alloc(AllocError::OutOfBounds))
    );
    assert_eq!(
        input_word(Err(AllocError::OutOfBounds)),
        Err(CallError::Alloc(AllocError::OutOfBounds))
    );
}

#[test]
fn capability_names_resolve() {
    assert_eq!(resolve("abort"), Ok(CapabilityFunction::Abort));
    assert_eq!(resolve("hc_debug"), Ok(CapabilityFunction::Debug));
    assert_eq!(resolve("hc_sign"), Ok(CapabilityFunction::Sign));
    assert_eq!(resolve("hc_debug_"), Err(ImportError::UnknownName));
    assert_eq!(resolve(""), Err(ImportError::UnknownName));
    for i in 1..=16usize {
        let f = CapabilityFunction::from_index(i).unwrap();
        assert_eq!(f.index(), i);
        assert_eq!(resolve(f.name()), Ok(f));
    }
    assert_eq!(CapabilityFunction::from_index(0), None);
    assert_eq!(CapabilityFunction::from_index(17), None);
}

#[test]
fn unknown_import_is_an_error() {
    let params = vec![ValueKind::I64];
    assert_eq!(
        check_import("no_such_function", &params, Some(ValueKind::I64)),
        Err(ImportError::UnknownName)
    );
}

#[test]
fn import_signatures_are_checked() {
    let word = vec![ValueKind::I64];
    let four = vec![ValueKind::I64; 4];
    assert_eq!(
        check_import("hc_get_entry", &word, Some(ValueKind::I64)),
        Ok(CapabilityFunction::GetAppEntry)
    );
    assert_eq!(check_import("abort", &four, None), Ok(CapabilityFunction::Abort));
    assert_eq!(
        check_import("abort", &word, Some(ValueKind::I64)),
        Err(ImportError::SignatureMismatch(CapabilityFunction::Abort))
    );
    assert_eq!(
        check_import("hc_query", &vec![ValueKind::I32], Some(ValueKind::I64)),
        Err(ImportError::SignatureMismatch(CapabilityFunction::Query))
    );
    assert_eq!(
        check_import("hc_query", &word, None),
        Err(ImportError::SignatureMismatch(CapabilityFunction::Query))
    );
}

#[test]
fn malformed_bytecode_is_a_load_error() {
    assert!(matches!(load_module(vec![1, 2, 3, 4]), Err(CallError::Load(_))));
    assert!(matches!(load_module(Vec::new()), Err(CallError::Load(_))));
}

#[test]
fn empty_module_loads() {
    let empty_module = vec![0x00, 0x61, 0x73, 0x6d, 0x01, 0x00, 0x00, 0x00];
    assert!(load_module(empty_module).is_ok());
}

#[test]
fn guest_failure_surfaces_its_code() {
    let call = CallContext::new("f".to_string(), SinglePageManager::new());
    let word = encode(EncodedResult::Failure(42));
    assert_eq!(call.decode_return(word), Err(CallError::CapabilityFailure(42)));
    assert_eq!(
        call.finish(InvokeOutcome::Returned(word as i64)),
        Err(CallError::CapabilityFailure(42))
    );
}

#[test]
fn success_word_is_null() {
    let call = CallContext::new("f".to_string(), SinglePageManager::new());
    assert_eq!(call.decode_return(0), Ok(JsonText::null()));
    assert_eq!(JsonText::null().as_str(), "null");
}

#[test]
fn data_outcome_is_the_json_text() {
    let (call, word) = context_with(b"{\"ok\":true}");
    let value = call.decode_return(word).unwrap();
    assert_eq!(value.as_str(), "{\"ok\":true}");
    assert_eq!(
        call.finish(InvokeOutcome::Returned(word as i64)),
        Ok(JsonText { text: "{\"ok\":true}".to_string() })
    );
}

#[test]
fn non_utf8_payload_is_a_text_error() {
    let (call, word) = context_with(&[0x7b, 0xff, 0xfe, 0x7d]);
    assert!(matches!(call.decode_return(word), Err(CallError::TextDecode(_))));
}

#[test]
fn multibyte_payload_decodes() {
    let (call, word) = context_with("grüße ✓".as_bytes());
    assert_eq!(call.decode_return(word).unwrap().as_str(), "grüße ✓");
}

#[test]
fn out_of_bounds_descriptor_is_a_decode_error() {
    let call = CallContext::new("f".to_string(), SinglePageManager::new());
    let past = AllocationDescriptor { offset: (PAGE_SIZE - 4) as u32, length: 10 };
    assert_eq!(
        call.decode_return(encode(past.to_encoded())),
        Err(CallError::AllocationDecode(DecodeError::OutOfBounds))
    );
    let far = AllocationDescriptor { offset: u32::MAX, length: u32::MAX };
    assert_eq!(
        call.decode_return(encode(far.to_encoded())),
        Err(CallError::AllocationDecode(DecodeError::OutOfBounds))
    );
}

#[test]
fn interpreter_failures_are_invocation_errors() {
    let call = CallContext::new("f".to_string(), SinglePageManager::new());
    assert_eq!(
        call.finish(InvokeOutcome::Trapped("Trap: Unreachable".to_string())),
        Err(CallError::Invocation("Trap: Unreachable".to_string()))
    );
    assert!(matches!(
        call.finish(InvokeOutcome::ReturnedNothing),
        Err(CallError::Invocation(_))
    ));
    assert!(matches!(
        call.finish(InvokeOutcome::ReturnedOtherType),
        Err(CallError::Invocation(_))
    ));
    assert_eq!(call.finish(InvokeOutcome::Returned(0)), Ok(JsonText::null()));
}

#[test]
fn calls_do_not_share_state() {
    let mut a = CallContext::new("f".to_string(), SinglePageManager::new());
    let mut b = CallContext::new("f".to_string(), SinglePageManager::new());
    let wa = a.stage_input(Some(b"\"first\"".to_vec())).unwrap();
    let wb = b.stage_input(Some(b"\"second call\"".to_vec())).unwrap();
    assert_eq!(a.decode_return(wa).unwrap().as_str(), "\"first\"");
    assert_eq!(b.decode_return(wb).unwrap().as_str(), "\"second call\"");
    assert_eq!(a.memory.top(), 7);
    assert_eq!(b.memory.top(), 13);
}
