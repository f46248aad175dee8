pub mod account;
pub mod decimal_value;
pub mod input_transaction;
pub mod output_record;
pub mod transaction;
