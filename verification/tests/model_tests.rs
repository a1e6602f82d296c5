use hope_model::config::{
    ContinuumMemConfig, DeepOptimizerConfig, HopeConfig, Ratio, SelfModifyConfig,
};
use hope_model::continuum_mem::{ContinuumMemory, ContinuumMemoryState};
use hope_model::hope::{HopeInput, HopeModel};
use hope_model::self_modify::SelfModifyModule;
use hope_model::tensor::{
    bytes2, bytes3, tensor2_zeros, tensor3_from_bytes, tensor3_zeros, token_tensor_from_values,
};

fn f32s_to_bytes(vals: &[f32]) -> Vec<u8> {
    let mut out = Vec::new();
    for v in vals {
        out.extend_from_slice(&v.to_le_bytes());
    }
    out
}

fn bytes_to_f32s(bytes: &[u8]) -> Vec<f32> {
    let mut out = Vec::new();
    let mut i = 0;
    while i + 4 <= bytes.len() {
        out.push(f32::from_le_bytes([bytes[i], bytes[i + 1], bytes[i + 2], bytes[i + 3]]));
        i += 4;
    }
    out
}

fn disabled_mem() -> ContinuumMemConfig {
    ContinuumMemConfig {
        enabled: false,
        ultra_short_span: 2,
        short_span: 8,
        mid_span: 32,
        long_span: 128,
        episodic_span: 512,
    }
}

fn disabled_self_modify() -> SelfModifyConfig {
    SelfModifyConfig {
        enabled: false,
        meta_lr: Ratio { num: 1, den: 100000 },
        update_frequency: 8,
        weight_mod_dim: 4,
    }
}

fn disabled_optimizer() -> DeepOptimizerConfig {
    DeepOptimizerConfig {
        enabled: false,
        fast_lr_scale: Ratio { num: 1, den: 1 },
        slow_lr_scale: Ratio { num: 1, den: 10 },
        fast_ema: Ratio { num: 9, den: 10 },
        slow_ema: Ratio { num: 99, den: 100 },
        sync_interval: 64,
        gradient_compression_dim: 4,
    }
}

fn tiny_config() -> HopeConfig {
    HopeConfig {
        hidden_size: 4,
        vocab_size: 10,
        seq_len: 3,
        num_heads: 1,
        num_layers: 1,
        ff_multiplier: Ratio { num: 4, den: 1 },
        dropout: Ratio { num: 1, den: 10 },
        num_levels: 1,
        level_timescales: vec![1],
        continuum_mem: disabled_mem(),
        self_modify: disabled_self_modify(),
        deep_optimizer: disabled_optimizer(),
    }
}

#[test]
fn test_initial_carry_shapes() {
    // every valid config yields one level state per level, each of shape
    // [batch, seq_len, hidden_size]
    let mut cfg = tiny_config();
    cfg.num_levels = 3;
    cfg.level_timescales = vec![1, 2, 4];
    assert!(cfg.validate());
    let model = HopeModel::new(cfg);
    let carry = model.initial_carry(2);
    assert_eq!(carry.level_states.len(), 3);
    for state in &carry.level_states {
        assert_eq!(state.shape(), (2, 3, 4));
    }
    assert_eq!(carry.step_count, 0);
    assert!(carry.continuum_memory.is_none());
    assert!(carry.self_modify.is_none());
}

#[test]
fn test_forward_end_to_end() {
    // hidden 4, vocab 10, seq 3, one head, one layer, one level, timescale 1,
    // all auxiliary modules disabled
    let cfg = tiny_config();
    assert!(cfg.validate());
    let model = HopeModel::new(cfg);
    let carry = model.initial_carry(1);
    assert_eq!(carry.step_count, 0);
    let tokens = token_tensor_from_values(&vec![1i64, 2, 3], 1, 3);
    let (new_carry, output) = model.forward(HopeInput { tokens }, carry);
    assert_eq!(output.logits.shape(), (1, 3, 10));
    assert_eq!(output.hidden_states.shape(), (1, 3, 4));
    assert_eq!(new_carry.level_states[0].shape(), (1, 3, 4));
    assert_eq!(new_carry.step_count, 1);
}

#[test]
fn test_forward_shape_preservation_across_boundary() {
    // encoding then decoding through the embedding/head pair is lossy; only
    // shapes are preserved across the forward boundary
    let cfg = tiny_config();
    let model = HopeModel::new(cfg);
    let carry = model.initial_carry(2);
    let tokens = token_tensor_from_values(&vec![0i64, 1, 2, 3, 4, 5], 2, 3);
    let (carry2, out1) = model.forward(HopeInput { tokens }, carry);
    assert_eq!(out1.logits.shape(), (2, 3, 10));
    let tokens2 = token_tensor_from_values(&vec![5i64, 4, 3, 2, 1, 0], 2, 3);
    let (carry3, out2) = model.forward(HopeInput { tokens: tokens2 }, carry2);
    assert_eq!(out2.logits.shape(), (2, 3, 10));
    assert_eq!(out2.hidden_states.shape(), (2, 3, 4));
    assert_eq!(carry3.step_count, 2);
}

#[test]
fn test_retrieve_identity_when_disabled() {
    // disabling memory makes retrieve the identity on the query
    let mem = ContinuumMemory::new(disabled_mem(), 4);
    let state = mem.init_state(1, 2, 4);
    let q_bytes = f32s_to_bytes(&[0.5, -1.25, 3.0, 42.0, 7.5, -0.125, 2.0, 9.0]);
    let query = tensor3_from_bytes(&q_bytes, 1, 2, 4);
    let merged = mem.retrieve(&state, &query);
    assert_eq!(bytes3(&merged), q_bytes);
    assert_eq!(merged.shape(), (1, 2, 4));
}

#[test]
fn test_self_modify_identity_when_disabled() {
    // disabling self-modification makes the weight modification an identity
    // and the update rule all zeros
    let sm = SelfModifyModule::new(disabled_self_modify(), 4);
    let h_bytes = f32s_to_bytes(&[1.0, -2.0, 0.25, 8.0, 0.0, 3.5, -4.5, 6.0]);
    let hidden = tensor3_from_bytes(&h_bytes, 1, 2, 4);
    let meta = tensor2_zeros(1, 4);
    let modified = sm.apply_weight_modification(&hidden, &meta);
    assert_eq!(bytes3(&modified), h_bytes);
    let state = sm.init_state(1, 4);
    let rule = sm.compute_update_rule(&hidden, &state);
    assert_eq!(rule.shape(), (1, 4));
    let rule_vals = bytes_to_f32s(&bytes2(&rule));
    assert!(rule_vals.iter().all(|v| *v == 0.0));
}

#[test]
fn test_memory_update_spans() {
    // spans [2, 8, 32, 128, 512]: after one update with non-zero activity
    // the fastest bank equals it exactly, the slowest moved by 1/512
    let cfg = ContinuumMemConfig {
        enabled: true,
        ultra_short_span: 2,
        short_span: 8,
        mid_span: 32,
        long_span: 128,
        episodic_span: 512,
    };
    let mem = ContinuumMemory::new(cfg, 2);
    let mut state = mem.init_state(1, 1, 2);
    let fresh = [1.0f32, -4.0];
    let fresh_bytes = f32s_to_bytes(&fresh);
    let new_hidden = tensor3_from_bytes(&fresh_bytes, 1, 1, 2);
    mem.update(&mut state, &new_hidden);
    assert_eq!(bytes3(&state.ultra_short), fresh_bytes);
    let expected_episodic: Vec<f32> =
        fresh.iter().map(|x| (0.0f32 * 511u64 as f32 + x) / 512u64 as f32).collect();
    assert_eq!(bytes3(&state.episodic), f32s_to_bytes(&expected_episodic));
    assert_ne!(bytes3(&state.episodic), fresh_bytes);
    let expected_short: Vec<f32> =
        fresh.iter().map(|x| (0.0f32 * 7u64 as f32 + x) / 8u64 as f32).collect();
    assert_eq!(bytes3(&state.short), f32s_to_bytes(&expected_short));
}

#[test]
fn test_memory_update_span_one_overwrites() {
    // a span of one means a blend weight of one: the bank becomes exactly
    // the new value
    let cfg = ContinuumMemConfig {
        enabled: true,
        ultra_short_span: 1,
        short_span: 1,
        mid_span: 1,
        long_span: 1,
        episodic_span: 1,
    };
    let mem = ContinuumMemory::new(cfg, 2);
    let prior = tensor3_from_bytes(&f32s_to_bytes(&[5.0, -3.0]), 1, 1, 2);
    let mut state = ContinuumMemoryState {
        ultra_short: tensor3_zeros(1, 1, 2),
        short: prior,
        mid: tensor3_from_bytes(&f32s_to_bytes(&[9.0, 9.0]), 1, 1, 2),
        long: tensor3_zeros(1, 1, 2),
        episodic: tensor3_zeros(1, 1, 2),
    };
    let fresh_bytes = f32s_to_bytes(&[2.5, 0.75]);
    let new_hidden = tensor3_from_bytes(&fresh_bytes, 1, 1, 2);
    mem.update(&mut state, &new_hidden);
    assert_eq!(bytes3(&state.short), fresh_bytes);
    assert_eq!(bytes3(&state.mid), fresh_bytes);
}

#[test]
fn test_memory_update_huge_span_keeps_bank() {
    // as the span grows the blend weight vanishes: with a span of 2^30 a
    // unit bank is left exactly unchanged by a zero update
    let span: usize = 1 << 30;
    let cfg = ContinuumMemConfig {
        enabled: true,
        ultra_short_span: 1,
        short_span: span,
        mid_span: span,
        long_span: span,
        episodic_span: span,
    };
    let mem = ContinuumMemory::new(cfg, 2);
    let ones = f32s_to_bytes(&[1.0, 1.0]);
    let mut state = ContinuumMemoryState {
        ultra_short: tensor3_zeros(1, 1, 2),
        short: tensor3_from_bytes(&ones, 1, 1, 2),
        mid: tensor3_from_bytes(&ones, 1, 1, 2),
        long: tensor3_from_bytes(&ones, 1, 1, 2),
        episodic: tensor3_from_bytes(&ones, 1, 1, 2),
    };
    let zero_hidden = tensor3_zeros(1, 1, 2);
    mem.update(&mut state, &zero_hidden);
    // (1.0 * (2^30 - 1) + 0.0) / 2^30 rounds back to 1.0 in single precision
    let expected: Vec<f32> =
        [1.0f32, 1.0].iter().map(|x| (x * ((span - 1) as f32) + 0.0) / (span as f32)).collect();
    assert_eq!(expected, vec![1.0f32, 1.0]);
    assert_eq!(bytes3(&state.episodic), ones);
}

#[test]
fn test_forward_with_memory_and_self_modify() {
    // with both auxiliary modules enabled the carry keeps them, the banks
    // fold in the final hidden states, and the update count advances once
    // per inner encoder evaluation
    let mut cfg = tiny_config();
    cfg.continuum_mem.enabled = true;
    cfg.self_modify.enabled = true;
    cfg.num_levels = 2;
    cfg.level_timescales = vec![2, 3];
    assert!(cfg.validate());
    let model = HopeModel::new(cfg);
    let carry = model.initial_carry(1);
    assert!(carry.continuum_memory.is_some());
    assert!(carry.self_modify.is_some());
    let tokens = token_tensor_from_values(&vec![7i64, 8, 9], 1, 3);
    let (new_carry, output) = model.forward(HopeInput { tokens }, carry);
    assert_eq!(output.logits.shape(), (1, 3, 10));
    assert_eq!(new_carry.step_count, 1);
    let mem_state = new_carry.continuum_memory.as_ref().expect("memory state");
    assert_eq!(bytes3(&mem_state.ultra_short), bytes3(&output.hidden_states));
    let sm_state = new_carry.self_modify.as_ref().expect("self-modify state");
    assert_eq!(sm_state.update_count, 5);
}

#[test]
fn test_retrieve_enabled_shape() {
    // with memory enabled, retrieval attends over all five banks and keeps
    // the query's shape
    let cfg = ContinuumMemConfig {
        enabled: true,
        ultra_short_span: 2,
        short_span: 8,
        mid_span: 32,
        long_span: 128,
        episodic_span: 512,
    };
    let mem = ContinuumMemory::new(cfg, 4);
    let state = mem.init_state(2, 3, 4);
    let query = tensor3_zeros(2, 3, 4);
    let merged = mem.retrieve(&state, &query);
    assert_eq!(merged.shape(), (2, 3, 4));
}

#[test]
fn test_tensor_bytes_round_trip() {
    // an array built from a byte image reads back the same image
    let vals = f32s_to_bytes(&[0.1, -2.75, 3.5, 11.0]);
    let t3 = tensor3_from_bytes(&vals, 1, 1, 4);
    assert_eq!(bytes3(&t3), vals);
    let t2 = hope_model::tensor::tensor2_from_bytes(&vals, 2, 2);
    assert_eq!(bytes2(&t2), vals);
}

#[test]
fn test_default_config_is_valid() {
    let cfg = HopeConfig::default();
    assert!(cfg.validate());
    assert_eq!(cfg.hidden_size, 384);
    assert_eq!(cfg.num_levels, 3);
    assert_eq!(cfg.level_timescales, vec![1, 4, 16]);
    assert_eq!(cfg.feedforward_dim(), 1536);
}

#[test]
fn test_forward_returns_final_level_state() {
    // the hidden states a forward call returns are exactly what it wrote
    // into the last level's carry slot
    let mut cfg = tiny_config();
    cfg.num_levels = 2;
    cfg.level_timescales = vec![1, 2];
    let model = HopeModel::new(cfg);
    let carry = model.initial_carry(1);
    let tokens = token_tensor_from_values(&vec![4i64, 5, 6], 1, 3);
    let (new_carry, output) = model.forward(HopeInput { tokens }, carry);
    assert_eq!(bytes3(&new_carry.level_states[1]), bytes3(&output.hidden_states));
}

#[test]
fn test_decompress_gradients_broadcasts() {
    // an enabled decompression repeats one decompressed vector at every
    // sequence position; disabled, it is all zeros
    let enabled = SelfModifyConfig {
        enabled: true,
        meta_lr: Ratio { num: 1, den: 100000 },
        update_frequency: 8,
        weight_mod_dim: 2,
    };
    let sm = SelfModifyModule::new(enabled, 3);
    let compressed =
        hope_model::tensor::tensor2_from_bytes(&f32s_to_bytes(&[0.5, -1.0]), 1, 2);
    let out = sm.decompress_gradients(&compressed, (1, 4, 3));
    assert_eq!(out.shape(), (1, 4, 3));
    let rows = bytes3(&out);
    let row_len = 3 * 4;
    for s in 1..4 {
        assert_eq!(rows[0..row_len], rows[s * row_len..(s + 1) * row_len]);
    }
    let disabled = SelfModifyModule::new(disabled_self_modify(), 3);
    let zero_out = disabled.decompress_gradients(&compressed, (1, 4, 3));
    let zeros = bytes3(&zero_out);
    assert!(zeros.iter().all(|b| *b == 0));
}
