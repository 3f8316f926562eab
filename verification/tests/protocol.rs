use azalea_inventory_logic::codec::{
    read_varint, write_varint, ClientboundRecipeBookRemove, RecipeDisplayId,
    ServerboundPlaceRecipe, ServerboundRecipeBookSeenRecipe,
};

#[test]
fn recipe_display_id_is_a_varint() {
    let packet = ServerboundPlaceRecipe {
        container_id: 2,
        recipe: RecipeDisplayId(300),
        shift_down: false,
    };
    let mut bytes = Vec::new();
    packet.write(&mut bytes);
    assert_eq!(bytes, vec![2, 0xac, 2, 0]);
    assert_eq!(ServerboundPlaceRecipe::read(&bytes, 0).unwrap().0, packet);
}

#[test]
fn varints_match_the_protocol() {
    for (value, expected) in [
        (0u32, vec![0u8]),
        (1, vec![1]),
        (127, vec![0x7f]),
        (128, vec![0x80, 0x01]),
        (255, vec![0xff, 0x01]),
        (25565, vec![0xdd, 0xc7, 0x01]),
        (2097151, vec![0xff, 0xff, 0x7f]),
        (2147483647, vec![0xff, 0xff, 0xff, 0xff, 0x07]),
        (u32::MAX, vec![0xff, 0xff, 0xff, 0xff, 0x0f]),
    ] {
        let mut bytes = Vec::new();
        write_varint(&mut bytes, value);
        assert_eq!(bytes, expected, "{value}");
        assert_eq!(read_varint(&bytes, 0), Some((value, expected.len())));
    }
}

#[test]
fn truncated_varints_are_rejected() {
    assert_eq!(read_varint(&[], 0), None);
    assert_eq!(read_varint(&[0x80], 0), None);
    assert_eq!(read_varint(&[0x80, 0x80], 0), None);
    // reading stops after five bytes even when the continuation bit is set
    assert_eq!(read_varint(&[0x80, 0x80, 0x80, 0x80, 0x80, 0x01], 0), Some((0, 5)));
}

#[test]
fn negative_container_ids_round_trip() {
    let packet = ServerboundPlaceRecipe {
        container_id: -1,
        recipe: RecipeDisplayId(0),
        shift_down: true,
    };
    let mut bytes = Vec::new();
    packet.write(&mut bytes);
    assert_eq!(bytes, vec![0xff, 0xff, 0xff, 0xff, 0x0f, 0, 1]);
    assert_eq!(ServerboundPlaceRecipe::read(&bytes, 0), Some((packet, 7)));
    assert_eq!(ServerboundPlaceRecipe::read(&bytes[..6], 0), None);
}

#[test]
fn seen_recipe_and_remove_packets() {
    let seen = ServerboundRecipeBookSeenRecipe {
        recipe: RecipeDisplayId(300),
    };
    let mut bytes = Vec::new();
    seen.write(&mut bytes);
    assert_eq!(bytes, vec![0xac, 2]);
    assert_eq!(ServerboundRecipeBookSeenRecipe::read(&bytes, 0), Some((seen, 2)));

    let remove = ClientboundRecipeBookRemove {
        recipes: vec![RecipeDisplayId(1), RecipeDisplayId(300)],
    };
    let mut bytes = Vec::new();
    remove.write(&mut bytes);
    assert_eq!(bytes, vec![2, 1, 0xac, 2]);
}
