//! Inventory, crafting and recipe-book logic of a Minecraft client: what a
//! click does to a menu, where a crafted result can go, and which recipes the
//! client currently knows.
pub mod item;
pub mod menu;
pub mod click;
pub mod operations;
pub mod codec;
pub mod conservation;
pub mod locality;
pub mod recipe;
pub mod recipe_book;
pub mod crafting;
pub mod guarantees;
