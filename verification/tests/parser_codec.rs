use commander::error::DecodeError;
use commander::flags::{EntitySelector, MinMax, ScoreHolderSelector};
use commander::parser::{Parser, StringDescription, SuggestionsType};
use commander::wire::encode_string;

fn round_trip(p: Parser) {
    let mut buf: Vec<u8> = Vec::new();
    p.encode(&mut buf);
    assert_eq!(p.size(), buf.len() as u64, "size of {:?}", p);
    let (decoded, end) = Parser::decode(&buf, 0).expect("parser should decode");
    assert_eq!(decoded, p);
    assert_eq!(end, buf.len());
}

#[test]
fn parser_plain_round_trips() {
    round_trip(Parser::Bool);
    round_trip(Parser::GameProfile);
    round_trip(Parser::BlockPos);
    round_trip(Parser::ColumnPos);
    round_trip(Parser::Vec3);
    round_trip(Parser::Vec2);
    round_trip(Parser::BlockState);
    round_trip(Parser::BlockPredicate);
    round_trip(Parser::ItemStack);
    round_trip(Parser::ItemPredicate);
    round_trip(Parser::Color);
    round_trip(Parser::Component);
    round_trip(Parser::Message);
    round_trip(Parser::Nbt);
    round_trip(Parser::NbtPath);
    round_trip(Parser::Objective);
    round_trip(Parser::ObjectiveCriteria);
    round_trip(Parser::Operation);
    round_trip(Parser::Particle);
    round_trip(Parser::Rotation);
    round_trip(Parser::Angle);
    round_trip(Parser::ScoreboardSlot);
    round_trip(Parser::Swizzle);
    round_trip(Parser::Team);
    round_trip(Parser::ItemSlot);
    round_trip(Parser::ResourceLocation);
    round_trip(Parser::MobEffect);
    round_trip(Parser::Function);
    round_trip(Parser::EntityAnchor);
    round_trip(Parser::IntRange);
    round_trip(Parser::FloatRange);
    round_trip(Parser::ItemEnchantment);
    round_trip(Parser::EntitySummon);
    round_trip(Parser::Dimension);
    round_trip(Parser::Uuid);
    round_trip(Parser::NbtTag);
    round_trip(Parser::NbtCompoundTag);
    round_trip(Parser::Time);
}

#[test]
fn parser_numeric_round_trips() {
    // All four presence patterns of the bit-gated bounds.
    round_trip(Parser::Double {
        bits: MinMax::new(false, false),
        min: None,
        max: None,
    });
    round_trip(Parser::Double {
        bits: MinMax::new(true, false),
        min: Some((-1.5f64).to_bits()),
        max: None,
    });
    round_trip(Parser::Double {
        bits: MinMax::new(false, true),
        min: None,
        max: Some(f64::MAX.to_bits()),
    });
    round_trip(Parser::Double {
        bits: MinMax::new(true, true),
        min: Some(f64::MIN.to_bits()),
        max: Some(f64::MAX.to_bits()),
    });
    round_trip(Parser::Float {
        bits: MinMax::new(true, true),
        min: Some(f32::MIN.to_bits()),
        max: Some(f32::MAX.to_bits()),
    });
    round_trip(Parser::Float {
        bits: MinMax::new(true, false),
        min: Some(0.25f32.to_bits()),
        max: None,
    });
    round_trip(Parser::Integer {
        bits: MinMax::new(true, true),
        min: Some(i32::MIN as u32),
        max: Some(i32::MAX as u32),
    });
    round_trip(Parser::Integer {
        bits: MinMax::new(false, true),
        min: None,
        max: Some(100u32),
    });
    round_trip(Parser::Long {
        bits: MinMax::new(true, true),
        min: Some(i64::MIN as u64),
        max: Some(i64::MAX as u64),
    });
    round_trip(Parser::Long {
        bits: MinMax::new(false, false),
        min: None,
        max: None,
    });
}

#[test]
fn parser_typed_round_trips() {
    round_trip(Parser::String {
        info: StringDescription::SingleWord,
    });
    round_trip(Parser::String {
        info: StringDescription::QuotablePhrase,
    });
    round_trip(Parser::String {
        info: StringDescription::GreedyPhrase,
    });
    round_trip(Parser::Entity {
        selector: EntitySelector::new(true, false),
    });
    round_trip(Parser::Entity {
        selector: EntitySelector::new(false, true),
    });
    round_trip(Parser::ScoreHolder {
        selector: ScoreHolderSelector::new(true),
    });
    round_trip(Parser::Range { decimals: true });
    round_trip(Parser::Range { decimals: false });
}

#[test]
fn parser_bool_exact_bytes() {
    let mut buf: Vec<u8> = Vec::new();
    Parser::Bool.encode(&mut buf);
    let mut expected: Vec<u8> = vec![14];
    expected.extend_from_slice(b"brigadier:bool");
    assert_eq!(buf, expected);
}

#[test]
fn parser_integer_exact_bytes() {
    let p = Parser::Integer {
        bits: MinMax::new(true, false),
        min: Some(1),
        max: None,
    };
    let mut buf: Vec<u8> = Vec::new();
    p.encode(&mut buf);
    let mut expected: Vec<u8> = vec![17];
    expected.extend_from_slice(b"brigadier:integer");
    expected.push(0x01); // the min bit
    expected.extend_from_slice(&[0, 0, 0, 1]); // big-endian minimum
    assert_eq!(buf, expected);
}

#[test]
fn parser_unknown_identifier_fails() {
    let mut buf: Vec<u8> = Vec::new();
    encode_string(b"minecraft:unheard_of", &mut buf);
    assert_eq!(
        Parser::decode(&buf, 0),
        Err(DecodeError::UnknownParserIdentifier)
    );
    let mut buf: Vec<u8> = Vec::new();
    encode_string(b"brigadier:bool!", &mut buf);
    assert_eq!(
        Parser::decode(&buf, 0),
        Err(DecodeError::UnknownParserIdentifier)
    );
}

#[test]
fn parser_truncated_payload_fails() {
    let p = Parser::Long {
        bits: MinMax::new(true, false),
        min: Some(7),
        max: None,
    };
    let mut buf: Vec<u8> = Vec::new();
    p.encode(&mut buf);
    buf.truncate(buf.len() - 1);
    assert_eq!(Parser::decode(&buf, 0), Err(DecodeError::UnexpectedEnd));
}

#[test]
fn string_description_round_trip_and_errors() {
    for d in [
        StringDescription::SingleWord,
        StringDescription::QuotablePhrase,
        StringDescription::GreedyPhrase,
    ] {
        let mut buf: Vec<u8> = Vec::new();
        d.encode(&mut buf);
        assert_eq!(d.size(), buf.len() as u64);
        assert_eq!(StringDescription::decode(&buf, 0), Ok((d, buf.len())));
    }
    assert_eq!(
        StringDescription::decode(&[3], 0),
        Err(DecodeError::UnknownStringKind)
    );
}

#[test]
fn suggestions_type_round_trip_and_errors() {
    for s in [
        SuggestionsType::AskServer,
        SuggestionsType::AllRecipes,
        SuggestionsType::AvailableSounds,
        SuggestionsType::AvailableBiomes,
        SuggestionsType::SummonableEntities,
    ] {
        let mut buf: Vec<u8> = Vec::new();
        s.encode(&mut buf);
        assert_eq!(s.size(), buf.len() as u64);
        assert_eq!(SuggestionsType::decode(&buf, 0), Ok((s, buf.len())));
    }
    let mut buf: Vec<u8> = Vec::new();
    encode_string(b"minecraft:ask_nobody", &mut buf);
    assert_eq!(
        SuggestionsType::decode(&buf, 0),
        Err(DecodeError::UnknownSuggestionsType)
    );
}
