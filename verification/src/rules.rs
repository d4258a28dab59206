pub mod adjacent_overload_signatures;
pub mod explicit_function_return_type;
pub mod no_explicit_any;
pub mod no_non_null_asserted_optional_chain;
pub mod no_octal;
pub mod no_throw_literal;
pub mod single_var_declarator;
