//! Tests for the builder and the compiler: the scenarios the graph is
//! designed around, and one test per error variant.

use render_graph::graph_buffer::RenderGraphBufferConstraint;
use render_graph::graph_buffer::BUFFER_USAGE_STORAGE;
use render_graph::graph_builder::RenderGraphBuilder;
use render_graph::graph_builder::RenderGraphError;
use render_graph::graph_builder::RenderGraphResourceKind;
use render_graph::graph_image::RenderGraphImageConstraint;
use render_graph::graph_image::RenderGraphImageSpecification;
use render_graph::graph_image::ASPECT_COLOR;
use render_graph::graph_image::LAYOUT_COLOR_ATTACHMENT;
use render_graph::graph_image::LAYOUT_PRESENT;
use render_graph::graph_image::LAYOUT_SHADER_READ_ONLY;
use render_graph::graph_image::LAYOUT_UNDEFINED;
use render_graph::graph_image::USAGE_COLOR_ATTACHMENT;
use render_graph::graph_image::USAGE_SAMPLED;
use render_graph::graph_image::RenderGraphImageResourceVersionInfo;
use render_graph::graph_image::RenderGraphImageUsageId;
use render_graph::graph_image::RenderGraphImageUsageType;
use render_graph::graph_image::RenderGraphNodeId;
use render_graph::graph_node::RenderGraphQueue;

const RGBA8: u32 = 37;
const BGRA8: u32 = 44;

fn unconstrained() -> RenderGraphImageConstraint {
    RenderGraphImageConstraint {
        samples: None,
        format: None,
        aspect_flags: 0,
        usage_flags: 0,
        create_flags: 0,
        layer_count: None,
        mip_count: None,
    }
}

fn format_constraint(format: u32, samples: u32) -> RenderGraphImageConstraint {
    RenderGraphImageConstraint {
        samples: Some(samples),
        format: Some(format),
        ..unconstrained()
    }
}

#[test]
fn create_then_read_resolves_from_the_creator() {
    // Scenario: A creates image X (RGBA8, 1 sample), B reads X with no
    // format constraint. The compiled specification is RGBA8 with one
    // sample, and B is ordered after A.
    let mut graph = RenderGraphBuilder::new();
    let a = graph.add_node("A", RenderGraphQueue::DefaultGraphics);
    let b = graph.add_node("B", RenderGraphQueue::DefaultGraphics);
    let x = graph
        .create_color_attachment(a, 0, None, format_constraint(RGBA8, 1), 0)
        .unwrap();
    graph.sample_image(b, x, unconstrained(), None).unwrap();
    let plan = graph.compile().unwrap();
    assert_eq!(plan.image_specifications[0][0].format, RGBA8);
    assert_eq!(plan.image_specifications[0][0].samples, 1);
    assert!(plan.node_positions[a.0] < plan.node_positions[b.0]);
    assert_eq!(plan.node_execution_order, vec![a, b]);
}

#[test]
fn conflicting_formats_name_the_two_usages() {
    // Scenario: A creates X as RGBA8, B reads X demanding BGRA8. The
    // compile fails naming X and the two usages.
    let mut graph = RenderGraphBuilder::new();
    let a = graph.add_node("A", RenderGraphQueue::DefaultGraphics);
    let b = graph.add_node("B", RenderGraphQueue::DefaultGraphics);
    let x = graph
        .create_color_attachment(a, 0, None, format_constraint(RGBA8, 1), 0)
        .unwrap();
    let read = graph
        .sample_image(b, x, format_constraint(BGRA8, 1), None)
        .unwrap();
    let err = graph.compile().unwrap_err();
    assert_eq!(
        err,
        RenderGraphError::ConstraintConflictError {
            kind: RenderGraphResourceKind::Image,
            resource: 0,
            usage_a: x.0,
            usage_b: read.0,
        }
    );
}

#[test]
fn disjoint_lifetimes_share_one_allocation() {
    // Scenario: three nodes in a forced A -> B -> C order, each producing
    // a same-format transient image nothing reads. The lifetimes are
    // [A,A], [B,B], [C,C], so all three virtual images share one physical
    // allocation.
    let mut graph = RenderGraphBuilder::new();
    let a = graph.add_node("A", RenderGraphQueue::DefaultGraphics);
    let b = graph.add_node("B", RenderGraphQueue::DefaultGraphics);
    let c = graph.add_node("C", RenderGraphQueue::DefaultGraphics);
    graph.add_phase_submission(a, 1).unwrap();
    graph.add_render_phase_dependency(b, 1).unwrap();
    graph.add_phase_submission(b, 2).unwrap();
    graph.add_render_phase_dependency(c, 2).unwrap();
    for node in [a, b, c] {
        graph
            .create_color_attachment(node, 0, None, format_constraint(RGBA8, 1), 0)
            .unwrap();
    }
    let plan = graph.compile().unwrap();
    for i in 0..3 {
        assert_eq!(plan.image_lifetimes[i][0].begin, i);
        assert_eq!(plan.image_lifetimes[i][0].end, i);
    }
    assert_eq!(plan.image_physical_ids[0][0], plan.image_physical_ids[1][0]);
    assert_eq!(plan.image_physical_ids[1][0], plan.image_physical_ids[2][0]);
    assert_eq!(plan.physical_images.len(), 1);
}

#[test]
fn same_node_read_and_write_of_one_image_is_rejected() {
    // Scenario: one node binds X as a render target and samples X in the
    // same pass. That needs one image in two exclusive roles at once.
    let mut graph = RenderGraphBuilder::new();
    let a = graph.add_node("A", RenderGraphQueue::DefaultGraphics);
    let x = graph
        .create_color_attachment(a, 0, None, format_constraint(RGBA8, 1), 0)
        .unwrap();
    let read = graph.sample_image(a, x, unconstrained(), None).unwrap();
    let err = graph.compile().unwrap_err();
    assert_eq!(
        err,
        RenderGraphError::ConflictingSameNodeUsageError {
            node: a,
            usage_a: x.0,
            usage_b: read.0,
        }
    );
}

#[test]
fn output_image_pins_format_and_allocation() {
    // Scenario: the output image is externally fixed at BGRA8 while the
    // upstream node writes with an unconstrained format. The resolved
    // specification is BGRA8, and the output's physical image is pinned:
    // no other version shares it.
    let mut graph = RenderGraphBuilder::new();
    let a = graph.add_node("A", RenderGraphQueue::DefaultGraphics);
    let b = graph.add_node("B", RenderGraphQueue::DefaultGraphics);
    let x = graph
        .create_color_attachment(a, 0, None, unconstrained(), 0)
        .unwrap();
    let external_spec = RenderGraphImageSpecification {
        samples: 1,
        format: BGRA8,
        aspect_flags: ASPECT_COLOR,
        usage_flags: USAGE_COLOR_ATTACHMENT,
        create_flags: 0,
        layer_count: 1,
        mip_count: 1,
    };
    graph
        .set_output_image(x, 42, external_spec, None, LAYOUT_PRESENT)
        .unwrap();
    graph
        .create_color_attachment(b, 0, None, format_constraint(BGRA8, 1), 0)
        .unwrap();
    let plan = graph.compile().unwrap();
    assert_eq!(plan.image_specifications[0][0].format, BGRA8);
    let output_physical = plan.output_physical_image.unwrap();
    assert_eq!(plan.image_physical_ids[0][0], output_physical);
    assert!(plan.physical_images[output_physical.0].is_output);
    // The output's lifetime runs to the last node, and nothing aliases it.
    assert_eq!(plan.image_lifetimes[0][0].end, 1);
    assert_ne!(plan.image_physical_ids[1][0], output_physical);
}

#[test]
fn compiling_twice_yields_the_same_plan() {
    let mut graph = RenderGraphBuilder::new();
    let a = graph.add_node("A", RenderGraphQueue::DefaultGraphics);
    let b = graph.add_node("B", RenderGraphQueue::DefaultGraphics);
    let x = graph
        .create_color_attachment(a, 0, None, format_constraint(RGBA8, 4), 0)
        .unwrap();
    graph.sample_image(b, x, unconstrained(), None).unwrap();
    let first = graph.compile().unwrap();
    let second = graph.compile().unwrap();
    assert_eq!(first.node_execution_order, second.node_execution_order);
    assert_eq!(first.node_positions, second.node_positions);
    assert_eq!(first.image_specifications, second.image_specifications);
    assert_eq!(first.image_lifetimes, second.image_lifetimes);
    assert_eq!(first.image_physical_ids, second.image_physical_ids);
    assert_eq!(first.physical_images, second.physical_images);
    assert_eq!(first.image_barriers, second.image_barriers);
}

#[test]
fn barriers_transition_between_usages() {
    // A renders into X, B samples X: entering A transitions X from
    // undefined to color attachment, entering B to shader read.
    let mut graph = RenderGraphBuilder::new();
    let a = graph.add_node("A", RenderGraphQueue::DefaultGraphics);
    let b = graph.add_node("B", RenderGraphQueue::DefaultGraphics);
    let x = graph
        .create_color_attachment(a, 0, None, format_constraint(RGBA8, 1), 0)
        .unwrap();
    graph.sample_image(b, x, unconstrained(), None).unwrap();
    let plan = graph.compile().unwrap();
    let physical = plan.image_physical_ids[0][0];
    assert_eq!(plan.image_barriers.len(), 2);
    assert_eq!(plan.image_barriers[0].len(), 1);
    assert_eq!(plan.image_barriers[0][0].physical_image, physical);
    assert_eq!(plan.image_barriers[0][0].old_layout, LAYOUT_UNDEFINED);
    assert_eq!(plan.image_barriers[0][0].new_layout, LAYOUT_COLOR_ATTACHMENT);
    assert_eq!(plan.image_barriers[1].len(), 1);
    assert_eq!(plan.image_barriers[1][0].old_layout, LAYOUT_COLOR_ATTACHMENT);
    assert_eq!(plan.image_barriers[1][0].new_layout, LAYOUT_SHADER_READ_ONLY);
}

#[test]
fn cyclic_graphs_are_rejected() {
    // A creates X; B modifies X producing version 1; A reads version 1:
    // A and B each depend on the other.
    let mut graph = RenderGraphBuilder::new();
    let a = graph.add_node("A", RenderGraphQueue::DefaultGraphics);
    let b = graph.add_node("B", RenderGraphQueue::DefaultGraphics);
    let x = graph
        .create_color_attachment(a, 0, None, format_constraint(RGBA8, 1), 0)
        .unwrap();
    let (_read, write, _v1) = graph
        .modify_image(
            b,
            x,
            unconstrained(),
            format_constraint(RGBA8, 1),
            LAYOUT_COLOR_ATTACHMENT,
        )
        .unwrap();
    graph.sample_image(a, write, unconstrained(), None).unwrap();
    assert_eq!(graph.compile().unwrap_err(), RenderGraphError::CyclicGraphError);
}

#[test]
fn unresolved_format_is_rejected() {
    let mut graph = RenderGraphBuilder::new();
    let a = graph.add_node("A", RenderGraphQueue::DefaultGraphics);
    graph
        .create_color_attachment(a, 0, None, unconstrained(), 0)
        .unwrap();
    assert_eq!(
        graph.compile().unwrap_err(),
        RenderGraphError::UnderconstrainedResourceError {
            kind: RenderGraphResourceKind::Image,
            resource: 0,
        }
    );
}

#[test]
fn stale_node_ids_are_rejected() {
    let mut graph = RenderGraphBuilder::new();
    let err = graph
        .create_color_attachment(
            RenderGraphNodeId(5),
            0,
            None,
            unconstrained(),
            0,
        )
        .unwrap_err();
    assert_eq!(err, RenderGraphError::UnknownNode { id: 5 });
}

#[test]
fn stale_usage_ids_are_rejected() {
    let mut graph = RenderGraphBuilder::new();
    let a = graph.add_node("A", RenderGraphQueue::DefaultGraphics);
    let err = graph
        .sample_image(
            a,
            RenderGraphImageUsageId(9),
            unconstrained(),
            None,
        )
        .unwrap_err();
    assert_eq!(
        err,
        RenderGraphError::UnknownResource {
            kind: RenderGraphResourceKind::Image,
            id: 9,
        }
    );
}

#[test]
fn second_callback_registration_is_rejected() {
    let mut graph = RenderGraphBuilder::new();
    let a = graph.add_node("A", RenderGraphQueue::DefaultGraphics);
    graph.set_renderpass_callback(a).unwrap();
    assert_eq!(
        graph.set_renderpass_callback(a).unwrap_err(),
        RenderGraphError::DuplicateCallbackError { node: a }
    );
}

#[test]
fn second_output_binding_is_rejected() {
    let mut graph = RenderGraphBuilder::new();
    let a = graph.add_node("A", RenderGraphQueue::DefaultGraphics);
    let x = graph
        .create_color_attachment(a, 0, None, format_constraint(BGRA8, 1), 0)
        .unwrap();
    let spec = RenderGraphImageSpecification {
        samples: 1,
        format: BGRA8,
        aspect_flags: ASPECT_COLOR,
        usage_flags: USAGE_COLOR_ATTACHMENT,
        create_flags: 0,
        layer_count: 1,
        mip_count: 1,
    };
    graph.set_output_image(x, 1, spec, None, LAYOUT_PRESENT).unwrap();
    assert_eq!(
        graph.set_output_image(x, 2, spec, None, LAYOUT_PRESENT).unwrap_err(),
        RenderGraphError::ExternalAliasingError
    );
}

#[test]
fn conflicting_buffer_sizes_are_rejected() {
    let mut graph = RenderGraphBuilder::new();
    let a = graph.add_node("A", RenderGraphQueue::DefaultGraphics);
    let b = graph.add_node("B", RenderGraphQueue::DefaultGraphics);
    let created = graph
        .create_storage_buffer(
            a,
            RenderGraphBufferConstraint {
                size: Some(64),
                usage_flags: 0,
            },
        )
        .unwrap();
    let read = graph
        .read_storage_buffer(
            b,
            created,
            RenderGraphBufferConstraint {
                size: Some(128),
                usage_flags: 0,
            },
        )
        .unwrap();
    assert_eq!(
        graph.compile().unwrap_err(),
        RenderGraphError::ConstraintConflictError {
            kind: RenderGraphResourceKind::Buffer,
            resource: 0,
            usage_a: created.0,
            usage_b: read.0,
        }
    );
}

#[test]
fn storage_buffers_resolve_and_order_their_readers() {
    let mut graph = RenderGraphBuilder::new();
    let b = graph.add_node("B", RenderGraphQueue::DefaultGraphics);
    let a = graph.add_node("A", RenderGraphQueue::AsyncCompute);
    // A (inserted second) produces the buffer B reads, so A runs first
    // even though B was registered first.
    let created = graph
        .create_storage_buffer(
            a,
            RenderGraphBufferConstraint {
                size: Some(256),
                usage_flags: 0,
            },
        )
        .unwrap();
    graph
        .read_storage_buffer(
            b,
            created,
            RenderGraphBufferConstraint {
                size: None,
                usage_flags: 0,
            },
        )
        .unwrap();
    // B still needs an image so the graph has something to render.
    graph
        .create_color_attachment(b, 0, None, format_constraint(RGBA8, 1), 0)
        .unwrap();
    let plan = graph.compile().unwrap();
    assert_eq!(plan.buffer_specifications[0][0].size, 256);
    assert_ne!(plan.buffer_specifications[0][0].usage_flags & BUFFER_USAGE_STORAGE, 0);
    assert!(plan.node_positions[a.0] < plan.node_positions[b.0]);
}

#[test]
fn modify_creates_a_new_version() {
    let mut graph = RenderGraphBuilder::new();
    let a = graph.add_node("A", RenderGraphQueue::DefaultGraphics);
    let b = graph.add_node("B", RenderGraphQueue::DefaultGraphics);
    let x = graph
        .create_color_attachment(a, 0, None, format_constraint(RGBA8, 1), 0)
        .unwrap();
    let (_read, _write, new_version) = graph
        .modify_image(
            b,
            x,
            unconstrained(),
            format_constraint(RGBA8, 1),
            LAYOUT_COLOR_ATTACHMENT,
        )
        .unwrap();
    assert_eq!(new_version.index, 0);
    assert_eq!(new_version.version, 1);
    assert_eq!(graph.image_resources[0].versions.len(), 2);
    let plan = graph.compile().unwrap();
    // Version 0 lives from A through B's read, version 1 from B on: they
    // overlap at B and cannot share an allocation.
    assert_eq!(plan.image_lifetimes[0][0].begin, 0);
    assert_eq!(plan.image_lifetimes[0][0].end, 1);
    assert_eq!(plan.image_lifetimes[0][1].begin, 1);
    assert_ne!(plan.image_physical_ids[0][0], plan.image_physical_ids[0][1]);
}

#[test]
fn attachment_registration_sets_the_required_flags() {
    let mut graph = RenderGraphBuilder::new();
    let a = graph.add_node("A", RenderGraphQueue::DefaultGraphics);
    let b = graph.add_node("B", RenderGraphQueue::DefaultGraphics);
    let x = graph
        .create_color_attachment(a, 0, None, format_constraint(RGBA8, 1), 0)
        .unwrap();
    let sampled = graph.sample_image(b, x, unconstrained(), None).unwrap();
    let create_usage = &graph.image_usages[x.0];
    assert_ne!(create_usage.constraint.usage_flags & USAGE_COLOR_ATTACHMENT, 0);
    assert_ne!(create_usage.constraint.aspect_flags & ASPECT_COLOR, 0);
    let read_usage = &graph.image_usages[sampled.0];
    assert_ne!(read_usage.constraint.usage_flags & USAGE_SAMPLED, 0);
    assert_eq!(graph.attachments.len(), 1);
    assert_eq!(graph.attachments[0].usage, x);
    // The merged specification carries the union of every usage's flags.
    let plan = graph.compile().unwrap();
    let spec = plan.image_specifications[0][0];
    assert_ne!(spec.usage_flags & USAGE_COLOR_ATTACHMENT, 0);
    assert_ne!(spec.usage_flags & USAGE_SAMPLED, 0);
}

#[test]
fn image_names_attach_to_the_resource() {
    let mut graph = RenderGraphBuilder::new();
    let a = graph.add_node("A", RenderGraphQueue::DefaultGraphics);
    let x = graph
        .create_color_attachment(a, 0, None, format_constraint(RGBA8, 1), 0)
        .unwrap();
    graph.set_image_name(x, "color").unwrap();
    assert_eq!(graph.image_resources[0].name, Some("color"));
}

#[test]
fn read_usage_bookkeeping_adds_and_removes() {
    let mut info = RenderGraphImageResourceVersionInfo::new(
        RenderGraphNodeId(0),
        RenderGraphImageUsageId(0),
    );
    info.add_read_usage(RenderGraphImageUsageId(1));
    info.add_read_usage(RenderGraphImageUsageId(2));
    info.add_read_usage(RenderGraphImageUsageId(3));
    info.remove_read_usage(RenderGraphImageUsageId(1));
    assert_eq!(info.read_usages.len(), 2);
    assert!(!info.read_usages.contains(&RenderGraphImageUsageId(1)));
    info.remove_read_usage(RenderGraphImageUsageId(9));
    assert_eq!(info.read_usages.len(), 2);
}

#[test]
fn larger_graphs_keep_order_and_aliasing_sound() {
    // A wider graph: a shadow pass, a depth prepass, an opaque pass
    // reading both, a blur chain ping-ponging one image, and an output.
    // Checks, for every read usage, that the reader runs after the
    // version's creator, and, for every pair of versions sharing a
    // physical image, that their lifetimes do not overlap.
    let mut graph = RenderGraphBuilder::new();
    let shadow = graph.add_node("shadow", RenderGraphQueue::DefaultGraphics);
    let prepass = graph.add_node("prepass", RenderGraphQueue::DefaultGraphics);
    let opaque = graph.add_node("opaque", RenderGraphQueue::DefaultGraphics);
    let blur_a = graph.add_node("blur_a", RenderGraphQueue::DefaultGraphics);
    let blur_b = graph.add_node("blur_b", RenderGraphQueue::DefaultGraphics);
    let shadow_map = graph
        .create_depth_attachment(shadow, None, format_constraint(126, 1))
        .unwrap();
    let depth = graph
        .create_depth_attachment(prepass, None, format_constraint(126, 1))
        .unwrap();
    let color = graph
        .create_color_attachment(opaque, 0, None, format_constraint(RGBA8, 1), 0)
        .unwrap();
    graph.sample_image(opaque, shadow_map, unconstrained(), None).unwrap();
    graph.read_depth_attachment(opaque, depth, unconstrained()).unwrap();
    let (_r1, blurred_once, _v1) = graph
        .modify_image(
            blur_a,
            color,
            unconstrained(),
            format_constraint(RGBA8, 1),
            LAYOUT_COLOR_ATTACHMENT,
        )
        .unwrap();
    let (_r2, blurred_twice, _v2) = graph
        .modify_image(
            blur_b,
            blurred_once,
            unconstrained(),
            format_constraint(RGBA8, 1),
            LAYOUT_COLOR_ATTACHMENT,
        )
        .unwrap();
    let spec = RenderGraphImageSpecification {
        samples: 1,
        format: RGBA8,
        aspect_flags: ASPECT_COLOR,
        usage_flags: USAGE_COLOR_ATTACHMENT,
        create_flags: 0,
        layer_count: 1,
        mip_count: 1,
    };
    graph
        .set_output_image(blurred_twice, 9, spec, None, LAYOUT_PRESENT)
        .unwrap();
    let plan = graph.compile().unwrap();

    // Topological soundness over every read usage.
    for resource in &graph.image_resources {
        for version in &resource.versions {
            let creator_position = plan.node_positions[version.creator_node.0];
            for read in &version.read_usages {
                if let render_graph::graph_image::RenderGraphImageUser::Node(reader) =
                    graph.image_usages[read.0].user
                {
                    assert!(creator_position < plan.node_positions[reader.0]);
                }
            }
        }
    }

    // No-overlap aliasing over every pair of versions.
    let mut placed: Vec<(usize, render_graph::graph_plan::RenderGraphVersionLifetime)> =
        Vec::new();
    for (i, row) in plan.image_physical_ids.iter().enumerate() {
        for (v, physical) in row.iter().enumerate() {
            placed.push((physical.0, plan.image_lifetimes[i][v]));
        }
    }
    for (index, (physical_a, lifetime_a)) in placed.iter().enumerate() {
        for (physical_b, lifetime_b) in placed.iter().skip(index + 1) {
            if physical_a == physical_b {
                assert!(lifetime_a.end < lifetime_b.begin || lifetime_b.end < lifetime_a.begin);
            }
        }
    }
}

#[test]
fn usage_types_know_whether_they_write() {
    assert!(RenderGraphImageUsageType::Read.is_read_only());
    assert!(RenderGraphImageUsageType::Output.is_read_only());
    assert!(!RenderGraphImageUsageType::Create.is_read_only());
    assert!(!RenderGraphImageUsageType::ModifyRead.is_read_only());
    assert!(!RenderGraphImageUsageType::ModifyWrite.is_read_only());
}
