pub mod cairo_base_type;
pub mod cairo_enum;
pub mod cairo_function;
pub mod cairo_struct;
pub mod cairo_trait;
pub mod declaration;
pub mod flattening;
pub mod get_ex_fn_sel;
pub mod lookup;
pub mod selector;
pub mod src5_type;
pub mod syntax;
pub mod type_syntax;
pub mod types;
pub mod utils;
