//! The load-time registration catalog and the dispatcher's lock discipline.

use silverpoint::dispatch::{finish_dispatch, dispatch_sequence, HostLock, WorkOutcome};
use silverpoint::enums::Color;
use silverpoint::position::Position;
use silverpoint::registry::{ClassId, EntryKind};

#[test]
fn exactly_sixty_four_distinct_on_board_constants() {
    let registry = silverpoint::init();
    let constants = &registry.position_constants;
    assert_eq!(constants.len(), 64);
    for c in constants.iter() {
        assert!(c.pos.is_on_board());
    }
    for i in 0..64 {
        for j in 0..64 {
            if i != j {
                assert_ne!(constants[i].pos, constants[j].pos);
            }
        }
    }
}

#[test]
fn each_constant_matches_its_algebraic_name() {
    let registry = silverpoint::init();
    for c in registry.position_constants.iter() {
        let file = (c.file_char as i32) - ('A' as i32);
        let rank = (c.rank_char as i32) - ('0' as i32);
        assert_eq!(c.pos.col, file);
        assert_eq!(c.pos.row, rank - 1);
        // Feeding the constant's own name back to the parser returns its
        // coordinate.
        let name: String = [c.file_char, c.rank_char].iter().collect();
        assert_eq!(Position::pgn(&name).unwrap(), c.pos);
    }
    // The D-file, 4th-rank constant sits at column 3, row 3.
    let d4 = registry.position_constants[3 * 8 + 3];
    assert_eq!((d4.file_char, d4.rank_char), ('D', '4'));
    assert_eq!((d4.pos.row, d4.pos.col), (3, 3));
}

#[test]
fn color_and_square_constants_are_registered() {
    let registry = silverpoint::init();
    assert_eq!(registry.color_constants.len(), 2);
    assert_eq!(registry.color_constants[0].name, "White");
    assert_eq!(registry.color_constants[0].value, Color::White);
    assert_eq!(registry.color_constants[1].name, "Black");
    assert_eq!(registry.color_constants[1].value, Color::Black);
    assert!(registry.empty_square.is_empty());
}

#[test]
fn catalog_lists_every_class_with_operators() {
    let registry = silverpoint::init();
    let classes = [
        ClassId::Board,
        ClassId::Color,
        ClassId::Piece,
        ClassId::Move,
        ClassId::Square,
        ClassId::Position,
        ClassId::GameResult,
    ];
    for class in classes {
        assert!(registry
            .methods
            .iter()
            .any(|e| e.class == class && e.name == "==" && e.kind == EntryKind::Operator));
        assert!(registry
            .methods
            .iter()
            .any(|e| e.class == class && e.name == "!=" && e.kind == EntryKind::Operator));
    }
}

#[test]
fn heavy_engine_calls_are_dispatched_and_accessors_are_not() {
    let registry = silverpoint::init();
    let dispatched = [
        "rating_bar",
        "material_advantage",
        "threatened?",
        "in_check?",
        "has_sufficient_material?",
        "has_insufficient_material?",
        "stalemate?",
        "checkmate?",
        "play_move",
        "value_for",
        "legal_moves",
        "best_next_move",
        "worst_next_move",
        "minimax",
    ];
    for e in registry.methods.iter().filter(|e| e.class == ClassId::Board) {
        assert_eq!(e.dispatched, dispatched.contains(&e.name), "entry {}", e.name);
    }
    // No other class makes a long-running engine call.
    for e in registry.methods.iter().filter(|e| e.class != ClassId::Board) {
        assert!(!e.dispatched, "entry {}", e.name);
    }
}

#[test]
fn board_catalog_spot_checks() {
    let registry = silverpoint::init();
    let first = &registry.methods[0];
    assert_eq!(first.class, ClassId::Board);
    assert_eq!(first.name, "new");
    assert_eq!(first.arity, 0);
    assert_eq!(first.kind, EntryKind::Constructor);
    let minimax = registry
        .methods
        .iter()
        .find(|e| e.class == ClassId::Board && e.name == "minimax")
        .expect("minimax registered");
    assert_eq!(minimax.arity, 6);
    let parse = registry
        .methods
        .iter()
        .find(|e| e.class == ClassId::Move && e.name == "parse")
        .expect("parse registered");
    assert_eq!(parse.kind, EntryKind::Constructor);
    assert_eq!(parse.arity, 1);
}

#[test]
fn dispatch_bracket_keeps_the_lock_discipline() {
    let mut lock = HostLock::new();
    assert!(lock.holds());
    lock.release_for_dispatch();
    assert!(!lock.holds());
    let outcome: WorkOutcome<u64> = WorkOutcome::Completed(42);
    let result = finish_dispatch(&mut lock, outcome);
    assert!(lock.holds());
    assert_eq!(result.unwrap(), 42);
}

#[test]
fn aborted_work_becomes_a_failure_with_the_message_kept() {
    let mut lock = HostLock::new();
    lock.release_for_dispatch();
    let outcome: WorkOutcome<u64> = WorkOutcome::Aborted("engine call failed".to_string());
    let result = finish_dispatch(&mut lock, outcome);
    assert!(lock.holds());
    let err = result.expect_err("aborted work fails");
    assert_eq!(err.message, "engine call failed");
}

#[test]
fn a_sequence_of_dispatches_holds_the_lock_between_calls() {
    let mut lock = HostLock::new();
    let outcomes: Vec<WorkOutcome<u64>> = vec![
        WorkOutcome::Completed(1),
        WorkOutcome::Aborted("boom".to_string()),
        WorkOutcome::Completed(3),
    ];
    let results = dispatch_sequence(&mut lock, outcomes);
    assert!(lock.holds());
    assert_eq!(results.len(), 3);
    assert_eq!(*results[0].as_ref().unwrap(), 1);
    assert_eq!(results[1].as_ref().unwrap_err().message, "boom");
    assert_eq!(*results[2].as_ref().unwrap(), 3);
}
