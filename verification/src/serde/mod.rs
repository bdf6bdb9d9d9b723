pub mod string_thing;
