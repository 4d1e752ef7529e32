use classgate::jvmti::capabilities::{
    set_capability, CAN_GENERATE_ALL_CLASS_HOOK_EVENTS, CAN_GENERATE_MONITOR_EVENTS,
    CAN_GENERATE_OBJECT_FREE_EVENTS, CAN_GENERATE_SAMPLED_OBJECT_ALLOC_EVENTS, CAN_TAG_OBJECTS,
};
use classgate::jvmti::errors::JvmtiError;
use classgate::jvmti::results::pair_results;
use classgate::jvmti::jvmti_sys::{
    jvmtiCapabilities, jvmtiError, jvmtiEvent, jvmtiEventMode, jvmtiHeapReferenceInfo,
    jvmtiHeapReferenceKind, jvmtiIterationControl, jvmtiJlocationFormat, jvmtiPhase,
    jvmtiPrimitiveType, jvmtiVerboseFlag,
};

#[test]
fn error_codes_are_the_interfaces() {
    assert_eq!(jvmtiError::JVMTI_ERROR_NONE.code(), 0);
    assert_eq!(jvmtiError::JVMTI_ERROR_INVALID_THREAD.code(), 10);
    assert_eq!(jvmtiError::JVMTI_ERROR_UNMODIFIABLE_CLASS.code(), 79);
    assert_eq!(jvmtiError::JVMTI_ERROR_OUT_OF_MEMORY.code(), 110);
    assert_eq!(jvmtiError::JVMTI_ERROR_INVALID_ENVIRONMENT.code(), 116);
}

#[test]
fn enum_codes_are_the_interfaces() {
    assert_eq!(jvmtiEvent::JVMTI_EVENT_CLASS_FILE_LOAD_HOOK.code(), 54);
    assert_eq!(jvmtiEvent::JVMTI_EVENT_SAMPLED_OBJECT_ALLOC.code(), 86);
    assert_eq!(jvmtiEventMode::JVMTI_ENABLE.code(), 1);
    assert_eq!(jvmtiEventMode::JVMTI_DISABLE.code(), 0);
    assert_eq!(jvmtiPhase::JVMTI_PHASE_START.code(), 6);
    assert_eq!(jvmtiPhase::JVMTI_PHASE_LIVE.code(), 4);
    assert_eq!(jvmtiPrimitiveType::JVMTI_PRIMITIVE_TYPE_BOOLEAN.code(), 90);
    assert_eq!(jvmtiHeapReferenceKind::JVMTI_HEAP_REFERENCE_JNI_GLOBAL.code(), 21);
    assert_eq!(jvmtiIterationControl::JVMTI_ITERATION_ABORT.code(), 0);
    assert_eq!(jvmtiVerboseFlag::JVMTI_VERBOSE_JNI.code(), 4);
    assert_eq!(jvmtiJlocationFormat::JVMTI_JLOCATION_OTHER.code(), 0);
}

#[test]
fn codes_read_back() {
    for code in 0..200u32 {
        match jvmtiError::from_code(code) {
            Some(error) => assert_eq!(error.code(), code),
            None => {}
        }
        match jvmtiEvent::from_code(code) {
            Some(event) => assert_eq!(event.code(), code),
            None => {}
        }
    }
    assert_eq!(jvmtiError::from_code(0), Some(jvmtiError::JVMTI_ERROR_NONE));
    assert_eq!(jvmtiError::from_code(112), Some(jvmtiError::JVMTI_ERROR_WRONG_PHASE));
    assert_eq!(jvmtiError::from_code(1), None);
    assert_eq!(jvmtiError::from_code(117), None);
    assert_eq!(jvmtiEvent::from_code(72), None);
    assert_eq!(jvmtiPhase::from_code(3), None);
    assert_eq!(jvmtiPhase::from_code(8), Some(jvmtiPhase::JVMTI_PHASE_DEAD));
}

#[test]
fn errors_keep_their_codes() {
    let mut seen = 0;
    for code in 1..200u32 {
        if let Some(raw) = jvmtiError::from_code(code) {
            assert_eq!(JvmtiError::from(&raw).code(), code);
            seen += 1;
        }
    }
    assert_eq!(seen, 48);
    assert_eq!(
        JvmtiError::from(&jvmtiError::JVMTI_ERROR_NOT_AVAILABLE),
        JvmtiError::NotAvailable
    );
    assert_eq!(
        JvmtiError::from(&jvmtiError::JVMTI_ERROR_CIRCULAR_CLASS_DEFINITION),
        JvmtiError::CircularClassDefinition
    );
}

#[test]
fn value_runs_only_on_success() {
    assert_eq!(jvmtiError::JVMTI_ERROR_NONE.value(|| 7), Ok(7));
    let mut called = false;
    let result = jvmtiError::JVMTI_ERROR_OUT_OF_MEMORY.value(|| {
        called = true;
        7
    });
    assert_eq!(result, Err(JvmtiError::OutOfMemory));
    assert!(!called);
}

#[test]
fn errors_describe_themselves() {
    assert_eq!(JvmtiError::InvalidThread.to_string(), "Invalid Thread");
    assert_eq!(JvmtiError::NotAvailable.to_string(), "Not Available");
    assert_eq!(
        JvmtiError::UnsupportedRedefinitionMethodModifiersChanged.to_string(),
        "Unsupported Redefinition Method Modifiers Changed"
    );
    assert_eq!(JvmtiError::InvalidMethodid.to_string(), "Invalid Methodid");
}

#[test]
fn capabilities_start_at_zero() {
    let caps = jvmtiCapabilities::default();
    assert_eq!(caps._bindgen_bitfield_1_, 0);
    assert_eq!(caps._bindgen_bitfield_2_, 0);
    assert_eq!(caps._bindgen_bitfield_3_, 0);
    assert_eq!(caps._bindgen_bitfield_4_, 0);
    assert_eq!(jvmtiHeapReferenceInfo::default()._bindgen_data_, [0u64; 8]);
}

#[test]
fn capability_sets_its_bit() {
    let mut caps = jvmtiCapabilities::default();
    assert_eq!(set_capability(&mut caps, CAN_GENERATE_ALL_CLASS_HOOK_EVENTS), Ok(()));
    assert_eq!(caps._bindgen_bitfield_1_, 1 << 26);
    assert_eq!(set_capability(&mut caps, CAN_GENERATE_MONITOR_EVENTS), Ok(()));
    assert_eq!(caps._bindgen_bitfield_1_, (1 << 26) | (1 << 28));
    assert_eq!(set_capability(&mut caps, CAN_TAG_OBJECTS), Ok(()));
    assert_eq!(caps._bindgen_bitfield_1_, (1 << 26) | (1 << 28) | 1);
    assert_eq!(caps._bindgen_bitfield_2_, 0);
    assert_eq!(set_capability(&mut caps, CAN_GENERATE_OBJECT_FREE_EVENTS), Ok(()));
    assert_eq!(caps._bindgen_bitfield_2_, 1);
    assert_eq!(set_capability(&mut caps, CAN_GENERATE_SAMPLED_OBJECT_ALLOC_EVENTS), Ok(()));
    assert_eq!(caps._bindgen_bitfield_2_, 1 | (1 << 11));
    assert_eq!(set_capability(&mut caps, 31), Ok(()));
    assert_eq!(set_capability(&mut caps, 63), Ok(()));
    assert_eq!(caps._bindgen_bitfield_1_, (1 << 26) | (1 << 28) | 1 | (1 << 31));
    assert_eq!(caps._bindgen_bitfield_2_, 1 | (1 << 11) | (1 << 31));
    assert_eq!(caps._bindgen_bitfield_3_, 0);
    assert_eq!(caps._bindgen_bitfield_4_, 0);
}

#[test]
fn capability_is_set_once() {
    let mut caps = jvmtiCapabilities::default();
    assert_eq!(set_capability(&mut caps, 5), Ok(()));
    let once = caps;
    assert_eq!(set_capability(&mut caps, 5), Ok(()));
    assert_eq!(caps, once);
}

#[test]
fn capability_beyond_two_words_is_refused() {
    let mut caps = jvmtiCapabilities::default();
    assert_eq!(set_capability(&mut caps, 64), Err(JvmtiError::NotAvailable));
    assert_eq!(set_capability(&mut caps, 1000), Err(JvmtiError::NotAvailable));
    assert_eq!(set_capability(&mut caps, usize::MAX), Err(JvmtiError::NotAvailable));
    assert_eq!(caps, jvmtiCapabilities::default());
}

#[test]
fn results_are_paired_but_for_the_last() {
    assert_eq!(pair_results(&[10, 20, 30], &['a', 'b', 'c'], 3), vec![(10, 'a'), (20, 'b')]);
    assert_eq!(pair_results(&[10], &['a'], 1), Vec::<(i32, char)>::new());
    assert_eq!(pair_results::<i32, char>(&[], &[], 0), Vec::<(i32, char)>::new());
    assert_eq!(pair_results::<i32, char>(&[], &[], -5), Vec::<(i32, char)>::new());
    assert_eq!(pair_results(&[1, 2, 3, 4], &[5u64, 6, 7, 8], 2), vec![(1, 5u64)]);
}
