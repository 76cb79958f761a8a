pub mod add;
pub mod and_or_xor;
pub mod cond;
pub mod cp;
pub mod inc_dec;
pub mod load;
pub mod other;
pub mod sub;
