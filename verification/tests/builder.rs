use xcvm::amount::Amount;
use xcvm::network::AssetId;
use xcvm::network::NetworkId;
use xcvm::program::Instruction;
use xcvm::program::ProgramBuilder;
use xcvm::swap::Swap;
use xcvm::swap::SwapError;
use xcvm::transfer::Transfer;

#[test]
fn fresh_builder_builds_empty_program() {
    let p = ProgramBuilder::from(Some("tag".to_string()), NetworkId::Picasso).build();
    assert_eq!(p.tag, Some("tag".to_string()));
    assert_eq!(p.network, NetworkId::Picasso);
    assert!(p.instructions.is_empty());
}

#[test]
fn call_then_transfer_keeps_order() {
    let swap = Swap { give: AssetId::Pica, want: AssetId::Eth, amount: Amount::Ratio(25) };
    let funds = Transfer::from(vec![(AssetId::Eth, Amount::Absolute(10))]);
    let dest = vec![0xaau8, 0xbb];

    let mut b = ProgramBuilder::from(None, NetworkId::Picasso);
    b.call(swap).expect("swap is implemented on Picasso");
    b.transfer(dest.clone(), Transfer::from(vec![(AssetId::Eth, Amount::Absolute(10))]));
    let p = b.build();

    assert_eq!(p.instructions.len(), 2);
    // Picasso's native swap call format: opcode, asset codes, then the
    // ratio amount as a kind byte and the percentage.
    assert_eq!(
        p.instructions[0],
        Instruction::Call { payload: vec![1, 1, 2, 1, 25] },
    );
    assert_eq!(
        p.instructions[1],
        Instruction::Transfer { to: dest, transfer: funds },
    );
}

#[test]
fn swap_absolute_amount_encodes_big_endian() {
    let swap = Swap {
        give: AssetId::Usdt,
        want: AssetId::Usdc,
        amount: Amount::Absolute(0x0102030405060708090a0b0c0d0e0f10),
    };
    let mut b = ProgramBuilder::from(None, NetworkId::Picasso);
    b.call(swap).expect("swap is implemented on Picasso");
    let p = b.build();
    assert_eq!(
        p.instructions[0],
        Instruction::Call {
            payload: vec![
                1, 3, 4, 0, 1, 2, 3, 4, 5, 6, 7, 8, 9, 10, 11, 12, 13, 14, 15, 16,
            ],
        },
    );
}

#[test]
fn failed_spawn_leaves_parent_untouched() {
    let mut parent = ProgramBuilder::from(None, NetworkId::Picasso);
    parent.transfer(vec![1, 2, 3], Transfer::empty());

    let swap = Swap { give: AssetId::Pica, want: AssetId::Eth, amount: Amount::Ratio(1) };
    let r = parent.spawn(
        None,
        NetworkId::Ethereum,
        Vec::new(),
        Transfer::empty(),
        |mut child: ProgramBuilder| {
            // A swap cannot be encoded for Ethereum, so configuring the
            // child fails and the spawn must be atomic.
            child.call(swap)?;
            Ok(child)
        },
    );
    assert_eq!(r, Err(SwapError::UnsupportedNetwork));
    assert_eq!(parent.instructions.len(), 1);

    // The parent is still usable after the failed attempt.
    parent.transfer(vec![4, 5, 6], Transfer::empty());
    let p = parent.build();
    assert_eq!(p.instructions.len(), 2);
}

#[test]
fn successful_spawn_embeds_the_standalone_child() {
    let dest = vec![7u8, 7, 7];
    let funds = Transfer::from(vec![(AssetId::Pica, Amount::Ratio(50))]);

    let mut parent = ProgramBuilder::from(Some("parent".to_string()), NetworkId::Picasso);
    let r = parent.spawn::<SwapError, _>(
        Some("child".to_string()),
        NetworkId::Ethereum,
        vec![9u8],
        Transfer::empty(),
        |mut child: ProgramBuilder| {
            child.transfer(vec![7u8, 7, 7], Transfer::from(vec![(AssetId::Pica, Amount::Ratio(50))]));
            Ok(child)
        },
    );
    assert_eq!(r, Ok(()));
    assert_eq!(parent.instructions.len(), 1);

    let mut standalone = ProgramBuilder::from(Some("child".to_string()), NetworkId::Ethereum);
    standalone.transfer(dest, funds);
    let expected = standalone.build();

    let p = parent.build();
    assert_eq!(
        p.instructions[0],
        Instruction::Spawn {
            network: NetworkId::Ethereum,
            salt: vec![9u8],
            transfer: Transfer::empty(),
            program: expected,
        },
    );
}

#[test]
fn swap_unsupported_on_ethereum_supported_on_picasso() {
    let swap = Swap { give: AssetId::Pica, want: AssetId::Eth, amount: Amount::Ratio(10) };

    let mut on_eth = ProgramBuilder::from(None, NetworkId::Ethereum);
    assert_eq!(on_eth.call(swap), Err(SwapError::UnsupportedNetwork));
    assert_eq!(on_eth.instructions.len(), 0);

    let mut on_picasso = ProgramBuilder::from(None, NetworkId::Picasso);
    assert_eq!(on_picasso.call(swap), Ok(()));
    assert_eq!(on_picasso.instructions.len(), 1);
    match &on_picasso.instructions[0] {
        Instruction::Call { payload } => assert!(!payload.is_empty()),
        other => panic!("expected a call instruction, got {:?}", other),
    }
}

#[test]
fn two_level_spawn_has_tree_shape() {
    let mut top = ProgramBuilder::from(Some("top".to_string()), NetworkId::Picasso);
    let r = top.spawn::<SwapError, _>(
        None,
        NetworkId::Ethereum,
        Vec::new(),
        Transfer::empty(),
        |mut eth: ProgramBuilder| {
            eth.spawn::<SwapError, _>(
                None,
                NetworkId::Picasso,
                Vec::new(),
                Transfer::empty(),
                |mut pica: ProgramBuilder| {
                    pica.transfer(vec![1u8], Transfer::empty());
                    Ok(pica)
                },
            )?;
            Ok(eth)
        },
    );
    assert_eq!(r, Ok(()));
    let p = top.build();

    assert_eq!(p.network, NetworkId::Picasso);
    assert_eq!(p.instructions.len(), 1);
    let eth_program = match &p.instructions[0] {
        Instruction::Spawn { network, program, .. } => {
            assert_eq!(*network, NetworkId::Ethereum);
            program
        },
        other => panic!("expected a spawn instruction, got {:?}", other),
    };
    assert_eq!(eth_program.instructions.len(), 1);
    let pica_program = match &eth_program.instructions[0] {
        Instruction::Spawn { network, program, .. } => {
            assert_eq!(*network, NetworkId::Picasso);
            program
        },
        other => panic!("expected a spawn instruction, got {:?}", other),
    };
    assert_eq!(pica_program.instructions.len(), 1);
    match &pica_program.instructions[0] {
        Instruction::Transfer { .. } => {},
        other => panic!("expected a transfer instruction, got {:?}", other),
    }
}
