pub mod symbol_registry;
