use hope_model::config::{ContinuumMemConfig, DeepOptimizerConfig, HopeConfig, Ratio, SelfModifyConfig, TrainConfig, TrainingConfig};
use hope_model::config::{default_batch_size, default_log_every, default_num_steps, default_use_random_data};
use hope_model::loader::{BookDataLoader, DataLoader, RandomDataLoader, TextDataLoader};
use hope_model::tensor::token_values;
use hope_model::training::generate_random_batch;

#[test]
fn test_generate_random_batch_values() {
    // tokens are the flattened cell index modulo the vocabulary; targets
    // shift left by one and pad with zero
    let batch = generate_random_batch(2, 3, 4);
    assert_eq!(batch.tokens.shape(), (2, 3));
    assert_eq!(batch.targets.shape(), (2, 3));
    assert_eq!(token_values(&batch.tokens), vec![0, 1, 2, 3, 0, 1]);
    assert_eq!(token_values(&batch.targets), vec![1, 2, 0, 0, 1, 0]);
}

#[test]
fn test_text_loader_windows() {
    let tokens: Vec<i64> = (0..12).collect();
    let mut loader = TextDataLoader::from_tokens(tokens, 2, 2);
    assert_eq!(loader.num_batches(), Some(2));
    let b1 = loader.next_batch().expect("first batch");
    assert_eq!(token_values(&b1.tokens), vec![0, 1, 2, 3]);
    assert_eq!(token_values(&b1.targets), vec![1, 2, 3, 4]);
    let b2 = loader.next_batch().expect("second batch");
    assert_eq!(token_values(&b2.tokens), vec![4, 5, 6, 7]);
    assert_eq!(token_values(&b2.targets), vec![5, 6, 7, 8]);
    // 8 + 2*(2+1) = 14 > 12: no further batch
    assert!(loader.next_batch().is_none());
    loader.reset();
    let again = loader.next_batch().expect("after reset");
    assert_eq!(token_values(&again.tokens), vec![0, 1, 2, 3]);
}

#[test]
fn test_text_loader_too_short() {
    let mut loader = TextDataLoader::from_tokens(vec![1, 2, 3], 2, 2);
    assert_eq!(loader.num_batches(), Some(0));
    assert!(loader.next_batch().is_none());
}

#[test]
fn test_book_loader_preprocessed() {
    let tokens: Vec<i64> = (10..22).collect();
    let mut loader = BookDataLoader::from_preprocessed(tokens, 1, 3);
    assert!(loader.book_files().is_empty());
    let b = loader.next_batch().expect("batch");
    assert_eq!(token_values(&b.tokens), vec![10, 11, 12]);
    assert_eq!(token_values(&b.targets), vec![11, 12, 13]);
}

#[test]
fn test_random_loader_counts() {
    let mut loader = RandomDataLoader::new(1, 2, 5, 2);
    assert_eq!(loader.num_batches(), Some(2));
    let b = loader.next_batch().expect("one");
    assert_eq!(token_values(&b.tokens), vec![0, 1]);
    assert!(loader.next_batch().is_some());
    assert!(loader.next_batch().is_none());
    loader.reset();
    assert!(loader.next_batch().is_some());
}

#[test]
fn test_config_validation() {
    let mut cfg = HopeConfig {
        hidden_size: 8,
        vocab_size: 100,
        seq_len: 16,
        num_heads: 2,
        num_layers: 1,
        ff_multiplier: Ratio { num: 4, den: 1 },
        dropout: Ratio { num: 1, den: 10 },
        num_levels: 2,
        level_timescales: vec![1, 4],
        continuum_mem: ContinuumMemConfig::default(),
        self_modify: SelfModifyConfig::default(),
        deep_optimizer: DeepOptimizerConfig::default(),
    };
    assert!(cfg.validate());
    assert_eq!(cfg.feedforward_dim(), 32);
    cfg.num_heads = 3;
    assert!(!cfg.validate(), "hidden size must divide evenly among heads");
    cfg.num_heads = 2;
    cfg.level_timescales = vec![1];
    assert!(!cfg.validate(), "one timescale per level");
    cfg.level_timescales = vec![1, 0];
    assert!(!cfg.validate(), "timescales are positive");
}

#[test]
fn test_feedforward_dim_rounds() {
    let cfg = HopeConfig {
        hidden_size: 6,
        vocab_size: 10,
        seq_len: 4,
        num_heads: 1,
        num_layers: 1,
        // 6 * 5/4 = 7.5, which rounds away from zero to 8
        ff_multiplier: Ratio { num: 5, den: 4 },
        dropout: Ratio { num: 0, den: 1 },
        num_levels: 1,
        level_timescales: vec![1],
        continuum_mem: ContinuumMemConfig { enabled: false, ..ContinuumMemConfig::default() },
        self_modify: SelfModifyConfig { enabled: false, ..SelfModifyConfig::default() },
        deep_optimizer: DeepOptimizerConfig { enabled: false, ..DeepOptimizerConfig::default() },
    };
    assert!(cfg.validate());
    assert_eq!(cfg.feedforward_dim(), 8);
}

#[test]
fn test_memory_config_validation() {
    let mut cfg = ContinuumMemConfig::default();
    assert!(cfg.validate());
    cfg.short_span = 1;
    assert!(!cfg.validate(), "spans must not decrease");
    cfg.enabled = false;
    assert!(cfg.validate(), "disabled memory needs no span constraints");
}

#[test]
fn test_train_config_accessors() {
    let train = TrainConfig {
        model: HopeConfig {
            hidden_size: 4,
            vocab_size: 10,
            seq_len: 3,
            num_heads: 1,
            num_layers: 1,
            ff_multiplier: Ratio { num: 4, den: 1 },
            dropout: Ratio { num: 1, den: 10 },
            num_levels: 1,
            level_timescales: vec![1],
            continuum_mem: ContinuumMemConfig::default(),
            self_modify: SelfModifyConfig::default(),
            deep_optimizer: DeepOptimizerConfig::default(),
        },
        training: TrainingConfig {
            batch_size: default_batch_size(),
            num_steps: default_num_steps(),
            learning_rate: Ratio { num: 1, den: 10000 },
            log_every: default_log_every(),
            use_random_data: default_use_random_data(),
        },
    };
    assert_eq!(train.batch_size(), 4);
    assert_eq!(train.num_steps(), 1000);
    assert_eq!(train.learning_rate(), Ratio { num: 1, den: 10000 });
    assert_eq!(train.log_every(), 10);
}

fn drain<L: DataLoader>(loader: &mut L) -> usize {
    let mut served = 0;
    while loader.next_batch().is_some() {
        served += 1;
    }
    served
}

#[test]
fn test_loaders_through_trait() {
    // the three loaders serve batches through the shared interface
    let mut text = TextDataLoader::from_tokens((0..12).collect(), 2, 2);
    assert_eq!(drain(&mut text), 2);
    let mut random = RandomDataLoader::new(1, 2, 5, 3);
    assert_eq!(drain(&mut random), 3);
    // 8 tokens, windows of 3+1 advancing by 3: batches at positions 0 and 3
    let mut book = BookDataLoader::from_preprocessed((0..8).collect(), 1, 3);
    assert_eq!(drain(&mut book), 2);
}
