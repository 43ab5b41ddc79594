//! Tests for the constraint/specification merge algebra.

use render_graph::graph_buffer::RenderGraphBufferConstraint;
use render_graph::graph_buffer::RenderGraphBufferSpecification;
use render_graph::graph_image::RenderGraphImageConstraint;
use render_graph::graph_image::RenderGraphImageSpecification;

fn empty_constraint() -> RenderGraphImageConstraint {
    RenderGraphImageConstraint {
        samples: None,
        format: None,
        aspect_flags: 0,
        usage_flags: 0,
        create_flags: 0,
        layer_count: None,
        mip_count: None,
    }
}

#[test]
fn merge_fills_unset_scalars_and_unions_flags() {
    let mut a = empty_constraint();
    a.samples = Some(4);
    a.aspect_flags = 1;
    a.usage_flags = 16;
    let mut b = empty_constraint();
    b.format = Some(37);
    b.aspect_flags = 2;
    b.usage_flags = 4;
    b.mip_count = Some(3);
    assert!(a.can_merge(&b));
    assert!(a.try_merge(&b));
    assert_eq!(a.samples, Some(4));
    assert_eq!(a.format, Some(37));
    assert_eq!(a.aspect_flags, 3);
    assert_eq!(a.usage_flags, 20);
    assert_eq!(a.layer_count, None);
    assert_eq!(a.mip_count, Some(3));
}

#[test]
fn merge_conflict_leaves_constraint_unchanged() {
    let mut a = empty_constraint();
    a.format = Some(37);
    let mut b = empty_constraint();
    b.format = Some(44);
    b.usage_flags = 4;
    assert!(!a.can_merge(&b));
    assert!(!a.try_merge(&b));
    assert_eq!(a.format, Some(37));
    assert_eq!(a.usage_flags, 0);
}

#[test]
fn partial_merge_keeps_compatible_fields_on_conflict() {
    let mut a = empty_constraint();
    a.format = Some(37);
    let mut b = empty_constraint();
    b.format = Some(44);
    b.samples = Some(4);
    b.usage_flags = 8;
    assert!(!a.partial_merge(&b));
    // The conflicting format kept a's value; everything else merged.
    assert_eq!(a.format, Some(37));
    assert_eq!(a.samples, Some(4));
    assert_eq!(a.usage_flags, 8);
}

#[test]
fn merge_order_does_not_matter() {
    let mut a = empty_constraint();
    a.samples = Some(1);
    a.aspect_flags = 1;
    let mut b = empty_constraint();
    b.format = Some(37);
    b.usage_flags = 16;
    let mut c = empty_constraint();
    c.mip_count = Some(2);
    c.usage_flags = 4;

    let mut ab = a;
    assert!(ab.try_merge(&b));
    let mut abc = ab;
    assert!(abc.try_merge(&c));

    let mut ac = a;
    assert!(ac.try_merge(&c));
    let mut acb = ac;
    assert!(acb.try_merge(&b));

    assert_eq!(abc, acb);
    assert_eq!(
        abc.try_convert_to_specification(),
        acb.try_convert_to_specification()
    );
}

#[test]
fn conversion_requires_a_format_and_defaults_the_rest() {
    let unset = empty_constraint();
    assert_eq!(unset.try_convert_to_specification(), None);

    let mut c = empty_constraint();
    c.format = Some(44);
    c.usage_flags = 16;
    let s = c.try_convert_to_specification().unwrap();
    assert_eq!(s.format, 44);
    assert_eq!(s.samples, 1);
    assert_eq!(s.layer_count, 1);
    assert_eq!(s.mip_count, 1);
    assert_eq!(s.usage_flags, 16);
}

#[test]
fn constraint_specification_round_trip() {
    let mut c = empty_constraint();
    c.format = Some(37);
    c.samples = Some(4);
    c.aspect_flags = 1;
    let s = c.try_convert_to_specification().unwrap();
    // Turning the specification back into a constraint and merging it into
    // the original resolves to the same specification.
    let back = RenderGraphImageConstraint::from(s);
    let mut merged = c;
    assert!(merged.try_merge(&back));
    assert_eq!(merged.try_convert_to_specification(), Some(s));
    // The specification's own constraint form resolves to it exactly.
    assert_eq!(back.try_convert_to_specification(), Some(s));
}

#[test]
fn constraint_set_pins_every_field() {
    let s = RenderGraphImageSpecification {
        samples: 4,
        format: 97,
        aspect_flags: 1,
        usage_flags: 16,
        create_flags: 0,
        layer_count: 6,
        mip_count: 2,
    };
    let mut c = empty_constraint();
    c.set(&s);
    assert_eq!(c.samples, Some(4));
    assert_eq!(c.format, Some(97));
    assert_eq!(c.layer_count, Some(6));
    assert_eq!(c.mip_count, Some(2));
    assert_eq!(c.aspect_flags, 1);
}

#[test]
fn specification_merge_requires_equal_scalars() {
    let mut a = RenderGraphImageSpecification {
        samples: 1,
        format: 37,
        aspect_flags: 1,
        usage_flags: 4,
        create_flags: 0,
        layer_count: 1,
        mip_count: 1,
    };
    let b = RenderGraphImageSpecification { usage_flags: 16, ..a };
    assert!(a.can_merge(&b));
    assert!(a.try_merge(&b));
    assert_eq!(a.usage_flags, 20);

    let c = RenderGraphImageSpecification { samples: 4, ..a };
    assert!(!a.can_merge(&c));
    assert!(!a.try_merge(&c));
    assert_eq!(a.usage_flags, 20);
}

#[test]
fn buffer_constraints_merge_on_size() {
    let mut a = RenderGraphBufferConstraint {
        size: None,
        usage_flags: 2,
    };
    let b = RenderGraphBufferConstraint {
        size: Some(1024),
        usage_flags: 4,
    };
    assert!(a.try_merge(&b));
    assert_eq!(a.size, Some(1024));
    assert_eq!(a.usage_flags, 6);
    let conflicting = RenderGraphBufferConstraint {
        size: Some(512),
        usage_flags: 0,
    };
    assert!(!a.try_merge(&conflicting));
    assert_eq!(a.size, Some(1024));
    assert_eq!(
        a.try_convert_to_specification(),
        Some(RenderGraphBufferSpecification {
            size: 1024,
            usage_flags: 6
        })
    );
    let unsized_constraint = RenderGraphBufferConstraint {
        size: None,
        usage_flags: 2,
    };
    assert_eq!(unsized_constraint.try_convert_to_specification(), None);
}
