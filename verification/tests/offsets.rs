use pubg::{
    CS2Offset, Module, OffsetError, OffsetResolution, SignatureType, StateCacheType,
    StatePredefinedOffset, StateResolvedOffset,
};

#[test]
fn available_offsets_lists_every_offset_in_order() {
    let offsets = CS2Offset::available_offsets();
    assert_eq!(
        offsets,
        &[
            CS2Offset::Globals,
            CS2Offset::BuildInfo,
            CS2Offset::LocalController,
            CS2Offset::GlobalEntityList,
            CS2Offset::ViewMatrix,
            CS2Offset::NetworkGameClientInstance,
            CS2Offset::CCVars,
            CS2Offset::SchemaSystem,
        ]
    );
    for (i, a) in offsets.iter().enumerate() {
        for b in offsets.iter().skip(i + 1) {
            assert_ne!(a, b);
        }
    }
}

#[test]
fn cache_names_are_exact_and_distinct() {
    let expected = [
        "globals",
        "build-info",
        "local-controller",
        "global-entity-list",
        "view-matrix",
        "network-game-client-instance",
        "ccvars",
        "schema-system",
    ];
    let offsets = CS2Offset::available_offsets();
    for (offset, name) in offsets.iter().zip(expected.iter()) {
        assert_eq!(offset.cache_name(), *name);
    }
    for (i, a) in offsets.iter().enumerate() {
        for b in offsets.iter().skip(i + 1) {
            assert_ne!(a.cache_name(), b.cache_name());
        }
    }
}

#[test]
fn signature_of_globals() {
    let (module, sig) = CS2Offset::Globals.signature();
    assert_eq!(module, Module::Client);
    assert_eq!(sig.debug_name, "client globals");
    assert_eq!(sig.pattern, "48 8B 05 ? ? ? ? 8B 48 04 FF C1");
    assert_eq!(sig.offset, 3);
    assert_eq!(sig.value_type, SignatureType::RelativeAddress { inst_length: 7 });
}

#[test]
fn signature_modules_and_lengths() {
    let expected = [
        (CS2Offset::Globals, Module::Client, 7),
        (CS2Offset::BuildInfo, Module::Engine, 7),
        (CS2Offset::LocalController, Module::Client, 8),
        (CS2Offset::GlobalEntityList, Module::Client, 7),
        (CS2Offset::ViewMatrix, Module::Client, 7),
        (CS2Offset::NetworkGameClientInstance, Module::Engine, 8),
        (CS2Offset::CCVars, Module::Tier0, 7),
        (CS2Offset::SchemaSystem, Module::Schemasystem, 7),
    ];
    for (offset, module, len) in expected {
        let (m, sig) = offset.signature();
        assert_eq!(m, module);
        assert_eq!(sig.offset, 3);
        assert_eq!(sig.value_type, SignatureType::RelativeAddress { inst_length: len });
    }
    let (_, sig) = CS2Offset::SchemaSystem.signature();
    assert_eq!(sig.debug_name, "schema system instance");
    assert_eq!(sig.pattern, "48 8B 0D ? ? ? ? 48 8B 55 A0");
}

#[test]
fn predefined_offset_takes_the_module_of_its_signature() {
    let p = StatePredefinedOffset::new(CS2Offset::CCVars, 0x1234, 0x7FF0_0000_1234);
    assert_eq!(p.module, Module::Tier0);
    assert_eq!(p.offset, 0x1234);
    assert_eq!(p.resolved, 0x7FF0_0000_1234);
    assert_eq!(StatePredefinedOffset::cache_type(), StateCacheType::Persistent);
}

#[test]
fn resolved_offset_prefers_the_predefined_value() {
    let p = StatePredefinedOffset::new(CS2Offset::ViewMatrix, 0x40, 0x1040);
    match StateResolvedOffset::create(CS2Offset::ViewMatrix, Some(&p)) {
        OffsetResolution::Predefined(r) => {
            assert_eq!(r.offset, 0x40);
            assert_eq!(r.address, 0x1040);
        }
        OffsetResolution::Scan { .. } => panic!("a predefined offset needs no scan"),
    }
    assert_eq!(StateResolvedOffset::cache_type(), StateCacheType::Persistent);
}

#[test]
fn resolved_offset_without_predefined_value_scans() {
    match StateResolvedOffset::create(CS2Offset::BuildInfo, None) {
        OffsetResolution::Scan { module, signature } => {
            assert_eq!(module, Module::Engine);
            assert_eq!(signature.pattern, "48 8B 1D ? ? ? ? 48 8D 3D");
        }
        OffsetResolution::Predefined(_) => panic!("nothing was predefined"),
    }
}

#[test]
fn resolved_offset_from_a_signature_match() {
    let r = StateResolvedOffset::from_signature_match(0x5000, Some(0x1000)).unwrap();
    assert_eq!(r.offset, 0x1000);
    assert_eq!(r.address, 0x5000);
    assert!(matches!(
        StateResolvedOffset::from_signature_match(0x5000, None),
        Err(OffsetError::NotInModule)
    ));
}

#[test]
fn displacement_bytes_are_wildcards_inside_the_instruction() {
    for offset in CS2Offset::available_offsets() {
        let (_, sig) = offset.signature();
        let tokens: Vec<&str> = sig.pattern.split(' ').collect();
        let SignatureType::RelativeAddress { inst_length } = sig.value_type;
        assert!(sig.offset + 4 <= inst_length);
        for k in sig.offset..sig.offset + 4 {
            assert_eq!(tokens[k as usize], "?");
        }
    }
}

#[test]
fn names_and_patterns_differ_and_patterns_are_hex_or_wildcards() {
    let offsets = CS2Offset::available_offsets();
    for (i, a) in offsets.iter().enumerate() {
        let (_, sa) = a.signature();
        for token in sa.pattern.split(' ') {
            assert!(
                token == "?"
                    || (token.len() == 2
                        && token.chars().all(|c| c.is_ascii_digit() || ('A'..='F').contains(&c)))
            );
        }
        for b in offsets.iter().skip(i + 1) {
            let (_, sb) = b.signature();
            assert_ne!(sa.debug_name, sb.debug_name);
            assert_ne!(sa.pattern, sb.pattern);
        }
    }
}
