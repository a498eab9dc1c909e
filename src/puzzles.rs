pub mod strategy_puzzle;
