use raygeo::ops::container::Ops;
use raygeo::ops::enums::CommandType;
use raygeo::ops::types::OpNode;

fn b(v: f64) -> u64 {
    v.to_bits()
}

fn types(o: &Ops) -> Vec<CommandType> {
    (0..o.len()).map(|i| o.command_type(i)).collect()
}

#[test]
fn sub_ops_copies_in_given_order() {
    let mut ops = Ops::new();
    ops.move_to(b(0.0), b(0.0), b(0.0), None);
    ops.line_to(b(1.0), b(0.0), b(0.0), None);
    ops.job_end();
    let s = ops.sub_ops(&[2, 0, 0]);
    assert_eq!(types(&s), vec![CommandType::JobEnd, CommandType::MoveTo, CommandType::MoveTo]);
    assert_eq!(ops.sub_ops(&[]).len(), 0);
}

#[test]
fn split_into_subpaths_at_each_move_to() {
    let mut ops = Ops::new();
    ops.move_to(b(0.0), b(0.0), b(0.0), None);
    ops.line_to(b(1.0), b(0.0), b(0.0), None);
    ops.line_to(b(1.0), b(1.0), b(0.0), None);
    ops.move_to(b(5.0), b(5.0), b(0.0), None);
    ops.line_to(b(6.0), b(5.0), b(0.0), None);
    let parts = ops.split_into_subpaths();
    assert_eq!(parts.len(), 2);
    assert_eq!(types(&parts[0]), vec![CommandType::MoveTo, CommandType::LineTo, CommandType::LineTo]);
    assert_eq!(types(&parts[1]), vec![CommandType::MoveTo, CommandType::LineTo]);
    assert_eq!(parts[1].endpoint(1), ops.endpoint(4));
}

#[test]
fn split_into_subpaths_of_empty_ops() {
    assert_eq!(Ops::new().split_into_subpaths().len(), 0);
}

#[test]
fn split_into_subpaths_partition_everything() {
    let mut ops = Ops::new();
    ops.push(OpNode::set_power(b(0.5)));
    ops.move_to(b(0.0), b(0.0), b(0.0), None);
    ops.move_to(b(1.0), b(0.0), b(0.0), None);
    ops.line_to(b(2.0), b(0.0), b(0.0), None);
    let parts = ops.split_into_subpaths();
    let total: usize = parts.iter().map(|p| p.len()).sum();
    assert_eq!(total, ops.len());
    let flat: Vec<CommandType> = parts.iter().flat_map(types).collect();
    assert_eq!(flat, types(&ops));
}

#[test]
fn split_at_layers() {
    let mut ops = Ops::new();
    ops.job_start();
    ops.layer_start("A");
    ops.move_to(b(0.0), b(0.0), b(0.0), None);
    ops.layer_end("A");
    ops.layer_start("B");
    ops.line_to(b(1.0), b(0.0), b(0.0), None);
    ops.layer_end("B");
    ops.job_end();
    let parts = ops.split_at(CommandType::LayerStart);
    assert_eq!(parts.len(), 4);
    assert_eq!(types(&parts[0]), vec![CommandType::JobStart]);
    assert_eq!(types(&parts[1]), vec![CommandType::LayerStart, CommandType::MoveTo, CommandType::LayerEnd]);
    assert_eq!(types(&parts[2]), vec![CommandType::LayerStart, CommandType::LineTo, CommandType::LayerEnd]);
    assert_eq!(types(&parts[3]), vec![CommandType::JobEnd]);
}

#[test]
fn split_at_unclosed_piece_runs_to_the_end() {
    let mut ops = Ops::new();
    ops.workpiece_start("W");
    ops.move_to(b(0.0), b(0.0), b(0.0), None);
    ops.line_to(b(1.0), b(0.0), b(0.0), None);
    let parts = ops.split_at(CommandType::WorkpieceStart);
    assert_eq!(parts.len(), 1);
    assert_eq!(parts[0].len(), 3);
}

#[test]
fn split_at_without_markers_is_one_piece() {
    let mut ops = Ops::new();
    ops.move_to(b(0.0), b(0.0), b(0.0), None);
    ops.line_to(b(1.0), b(0.0), b(0.0), None);
    let parts = ops.split_at(CommandType::JobStart);
    assert_eq!(parts.len(), 1);
    assert_eq!(parts[0].len(), 2);
    assert_eq!(Ops::new().split_at(CommandType::ProcessStart).len(), 0);
}

#[test]
fn split_at_pieces_concatenate_to_the_input() {
    let mut ops = Ops::new();
    ops.process_start("p", "");
    ops.process_end("p");
    ops.move_to(b(0.0), b(0.0), b(0.0), None);
    ops.process_start("q", "");
    ops.line_to(b(1.0), b(0.0), b(0.0), None);
    ops.process_end("q");
    let parts = ops.split_at(CommandType::ProcessStart);
    let flat: Vec<CommandType> = parts.iter().flat_map(types).collect();
    assert_eq!(flat, types(&ops));
    assert_eq!(parts.len(), 3);
}
