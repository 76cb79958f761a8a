pub mod add;
pub mod and_or_xor;
pub mod cond;
pub mod cp;
pub mod inc_dec;
pub mod load;
pub mod load_a;
pub mod load_b;
pub mod load_c;
pub mod load_d;
pub mod load_e;
pub mod load_f;
pub mod load_h;
pub mod load_l;
pub mod load_r16;
pub mod other;
pub mod sub;
