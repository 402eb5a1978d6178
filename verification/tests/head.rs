use room_sense::error::TemporalError;
use room_sense::sparse::{alloc_first_token, SparseGqaHead, TemporalHeadConfig};
use ruvllm_sparse_attention::Tensor3;

fn config(q_heads: usize, kv_heads: usize) -> TemporalHeadConfig {
    TemporalHeadConfig {
        q_heads,
        kv_heads,
        window: 4,
        block_size: 2,
        causal: true,
        defect: None,
    }
}

fn head(q_heads: usize, kv_heads: usize) -> SparseGqaHead {
    match SparseGqaHead::new(&config(q_heads, kv_heads)) {
        Ok(h) => h,
        Err(e) => panic!("{}", e.message()),
    }
}

fn counted(seq: usize, heads: usize, dim: usize) -> Tensor3 {
    let data = (0..seq * heads * dim).map(|i| i as f32 * 0.25).collect();
    Tensor3::from_vec(data, seq, heads, dim).unwrap()
}

fn kernel_message(r: Result<Tensor3, TemporalError>) -> String {
    match r {
        Err(TemporalError::Kernel(message)) => message,
        Err(e) => panic!("{}", e.message()),
        Ok(_) => panic!("refusal expected"),
    }
}

#[test]
fn first_token_is_the_global_token() {
    assert_eq!(alloc_first_token(), vec![0usize]);
}

#[test]
fn head_keeps_its_config() {
    let h = head(4, 2);
    assert_eq!(h.cfg().q_heads, 4);
    assert_eq!(h.cfg().kv_heads, 2);
    assert_eq!(h.cfg().window, 4);
    assert_eq!(h.cfg().block_size, 2);
    assert!(h.cfg().causal);
    assert!(h.cfg().validate().is_ok());
}

#[test]
fn unsound_config_is_reported_before_empty_blocks() {
    let cfg = TemporalHeadConfig {
        block_size: 0,
        defect: Some("no heads"),
        ..config(0, 0)
    };
    match SparseGqaHead::new(&cfg) {
        Err(TemporalError::InvalidConfig(why)) => assert_eq!(why, "no heads"),
        _ => panic!("refusal expected"),
    }
}

#[test]
fn empty_blocks_are_refused_by_the_kernel() {
    let cfg = TemporalHeadConfig {
        block_size: 0,
        ..config(2, 2)
    };
    match SparseGqaHead::new(&cfg) {
        Err(TemporalError::Kernel(message)) => {
            assert_eq!(message, "invalid config: block_size must be greater than zero")
        }
        _ => panic!("refusal expected"),
    }
}

#[test]
fn error_messages() {
    assert_eq!(
        TemporalError::InvalidConfig("no heads").message(),
        "temporal head config invalid: no heads"
    );
    assert_eq!(
        TemporalError::DenseBackendNotImplemented.message(),
        "dense MHA backend not implemented yet (ADR-096 §4.4 follow-up)"
    );
    assert_eq!(
        TemporalError::Kernel("x".to_string()).message(),
        "sparse attention kernel error: x"
    );
}

#[test]
fn plain_head_on_one_token_hands_the_value_back() {
    let h = head(2, 2);
    let (q, k) = (counted(1, 2, 3), counted(1, 2, 3));
    let v = Tensor3::from_vec(vec![1.0, 2.0, 3.0, 4.0, 5.0, 6.0], 1, 2, 3).unwrap();
    let out = h.forward(&q, &k, &v).unwrap();
    assert_eq!(out.shape(), (1, 2, 3));
    assert_eq!(out.data, v.data);
}

#[test]
fn grouped_head_on_one_token_shares_the_values() {
    let h = head(4, 2);
    let (q, k) = (counted(1, 4, 1), counted(1, 2, 1));
    let v = Tensor3::from_vec(vec![7.0, 9.0], 1, 2, 1).unwrap();
    let out = h.forward(&q, &k, &v).unwrap();
    assert_eq!(out.shape(), (1, 4, 1));
    assert_eq!(out.data, vec![7.0, 7.0, 9.0, 9.0]);
}

#[test]
fn longer_sequences_keep_the_shape_of_the_query() {
    let out = head(2, 2).forward(&counted(9, 2, 3), &counted(9, 2, 3), &counted(9, 2, 3)).unwrap();
    assert_eq!(out.shape(), (9, 2, 3));
    assert_eq!(out.data.len(), 54);
    let out = head(4, 2).forward(&counted(9, 4, 3), &counted(9, 2, 3), &counted(9, 2, 3)).unwrap();
    assert_eq!(out.shape(), (9, 4, 3));
    assert_eq!(out.data.len(), 108);
}

#[test]
fn empty_sequence_gives_an_empty_tensor() {
    let t = counted(0, 2, 3);
    let out = head(2, 2).forward(&t, &t, &t).unwrap();
    assert_eq!(out.shape(), (0, 2, 3));
    assert!(out.data.is_empty());
}

#[test]
fn form_is_chosen_by_the_config_and_not_by_the_tensors() {
    let (q, kv) = (counted(2, 4, 1), counted(2, 2, 1));
    assert_eq!(
        kernel_message(head(2, 2).forward(&q, &kv, &kv)),
        "shape mismatch, q=(2, 4, 1), k=(2, 2, 1), v=(2, 2, 1); expected equal shapes"
    );
    assert!(head(8, 2).forward(&q, &kv, &kv).is_ok());
}

#[test]
fn equal_shapes_are_accepted_by_either_form() {
    let t = counted(3, 2, 2);
    assert!(head(2, 2).forward(&t, &t, &t).is_ok());
    assert!(head(4, 2).forward(&t, &t, &t).is_ok());
}

#[test]
fn heads_without_dimensions_are_refused() {
    let t = counted(2, 2, 0);
    let expected = "invalid config: head dimension must be greater than zero";
    assert_eq!(kernel_message(head(2, 2).forward(&t, &t, &t)), expected);
    assert_eq!(kernel_message(head(4, 2).forward(&t, &t, &t)), expected);
}

#[test]
fn grouped_head_names_what_does_not_fit() {
    let h = head(4, 2);
    assert_eq!(
        kernel_message(h.forward(&counted(2, 4, 1), &counted(3, 2, 1), &counted(2, 2, 1))),
        "shape mismatch, q=(2, 4, 1), k=(3, 2, 1), v=(2, 2, 1); expected equal shapes"
    );
    assert_eq!(
        kernel_message(h.forward(&counted(2, 4, 1), &counted(2, 2, 12), &counted(2, 2, 1))),
        "invalid config: head dim mismatch: q.dim=1, k.dim=12"
    );
    assert_eq!(
        kernel_message(h.forward(&counted(2, 4, 1), &counted(2, 3, 1), &counted(2, 3, 1))),
        "invalid config: q_heads=4 must be divisible by kv_heads=3"
    );
    assert_eq!(
        kernel_message(h.forward(&counted(2, 4, 1), &counted(2, 0, 1), &counted(2, 0, 1))),
        "invalid config: q_heads=4 must be divisible by kv_heads=0"
    );
    assert_eq!(
        kernel_message(h.forward(&counted(2, 4, 1), &counted(2, 2, 1), &counted(2, 1, 1))),
        "invalid config: k.heads=2 != v.heads=1"
    );
}

#[test]
fn refusal_does_not_depend_on_the_numbers() {
    let h = head(2, 2);
    let bad = counted(2, 1, 1);
    let first = kernel_message(h.forward(&counted(2, 2, 1), &bad, &bad));
    let second = kernel_message(h.forward(&Tensor3::zeros(2, 2, 1), &bad, &Tensor3::zeros(2, 1, 1)));
    assert_eq!(first, second);
}

#[test]
fn checked_forward_runs_where_forward_can() {
    let h = head(2, 2);
    let t = counted(3, 2, 2);
    let checked = h.checked_forward(&t, &t, &t).unwrap().unwrap();
    assert_eq!(checked, h.forward(&t, &t, &t).unwrap());
    let refused = h.checked_forward(&t, &counted(3, 1, 2), &t).unwrap();
    assert_eq!(
        kernel_message(refused),
        "shape mismatch, q=(3, 2, 2), k=(3, 1, 2), v=(3, 2, 2); expected equal shapes"
    );
}

#[test]
fn checked_forward_declines_what_the_kernel_cannot_lay_out() {
    let t = counted(3, 2, 2);
    let short = Tensor3 {
        data: vec![0.0; 11],
        seq: 3,
        heads: 2,
        dim: 2,
    };
    let h = head(2, 2);
    assert!(h.checked_forward(&short, &t, &t).is_none());
    assert!(h.checked_forward(&t, &short, &t).is_none());
    assert!(h.checked_forward(&t, &t, &short).is_none());

    let wide = SparseGqaHead::new(&TemporalHeadConfig {
        window: usize::MAX,
        ..config(2, 2)
    })
    .unwrap();
    assert!(wide.checked_forward(&t, &t, &t).is_none());
    let none = counted(0, 2, 2);
    assert!(wide.checked_forward(&none, &none, &none).unwrap().is_ok());

    let endless = Tensor3 {
        data: vec![],
        seq: usize::MAX,
        heads: 0,
        dim: 1,
    };
    assert!(h.checked_forward(&endless, &endless, &endless).is_none());
    let broad = Tensor3 {
        data: vec![],
        seq: 1,
        heads: 0,
        dim: usize::MAX,
    };
    assert!(h.checked_forward(&broad, &broad, &broad).is_none());
}

/// The output for the last of eight tokens whose values are their places, where every token that
/// is seen weighs the same.
fn last_of_eight(cfg: TemporalHeadConfig) -> f32 {
    let zero = Tensor3::zeros(8, 1, 1);
    let places = Tensor3::from_vec((0..8).map(|i| i as f32).collect(), 8, 1, 1).unwrap();
    let out = SparseGqaHead::new(&cfg).unwrap().forward(&zero, &zero, &places).unwrap();
    out.data[7]
}

#[test]
fn last_token_sees_strides_and_the_first_token() {
    let cfg = TemporalHeadConfig {
        window: 0,
        block_size: 16,
        ..config(1, 1)
    };
    let mean = (7.0 + 0.0 + 6.0 + 5.0 + 3.0) / 5.0;
    assert!((last_of_eight(cfg) - mean).abs() < 1e-5);
}

#[test]
fn landmarks_add_the_means_of_blocks() {
    let cfg = TemporalHeadConfig {
        window: 0,
        block_size: 4,
        ..config(1, 1)
    };
    let mean = (7.0 + 0.0 + 6.0 + 5.0 + 3.0 + 1.5 + 5.5) / 7.0;
    assert!((last_of_eight(cfg) - mean).abs() < 1e-5);
}

#[test]
fn window_widens_what_a_token_sees() {
    let cfg = TemporalHeadConfig {
        window: 7,
        block_size: 16,
        ..config(1, 1)
    };
    assert!((last_of_eight(cfg) - 3.5).abs() < 1e-5);
}

#[test]
fn causal_head_sees_no_later_token() {
    let zero = Tensor3::zeros(4, 1, 1);
    let places = Tensor3::from_vec(vec![0.0, 1.0, 2.0, 3.0], 4, 1, 1).unwrap();
    let causal = TemporalHeadConfig {
        block_size: 16,
        ..config(1, 1)
    };
    let open = TemporalHeadConfig {
        causal: false,
        ..causal
    };
    let first = |cfg: &TemporalHeadConfig| {
        SparseGqaHead::new(cfg).unwrap().forward(&zero, &zero, &places).unwrap().data[0]
    };
    assert_eq!(first(&causal), 0.0);
    assert!((first(&open) - 1.5).abs() < 1e-5);
}

#[test]
fn equal_heads_agree_whatever_was_asked_before() {
    let (first, second) = (head(2, 2), head(2, 2));
    let (t, odd) = (counted(5, 2, 2), counted(5, 1, 2));
    assert!(first.forward(&t, &odd, &odd).is_err());
    assert!(first.forward(&odd, &odd, &odd).is_ok());
    let before = t.clone();
    assert_eq!(first.forward(&t, &t, &t).unwrap(), second.forward(&t, &t, &t).unwrap());
    assert_eq!(t, before);
    assert_eq!(
        kernel_message(first.forward(&t, &odd, &odd)),
        kernel_message(second.forward(&t, &odd, &odd))
    );
}
