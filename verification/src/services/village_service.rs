//! Founding villages and showing the map.

use vstd::prelude::*;
use crate::error::AppError;
use crate::services::ownership::ensure_owner;
use crate::models::village::{
    CreateVillage, CreateVillageRequest, MapQuery, UpdateVillageRequest, Village, VillageMapInfo,
};

verus! {

/// The village registry.
pub struct VillageService;

/// Range of the map that is shown where none is asked for.
pub const DEFAULT_RANGE: i32 = 7;

/// Widest range of the map that is shown.
pub const MAX_RANGE: i32 = 15;

/// One place of the map, and the village on it where there is one.
#[derive(Debug)]
pub struct MapTileResponse {
    pub x: i32,
    pub y: i32,
    pub village: Option<MapVillageInfo>,
}

#[derive(Debug)]
pub struct MapVillageInfo {
    pub id: u128,
    pub name: String,
    pub player_name: Option<String>,
    pub population: i32,
    pub is_own: bool,
}

/// Whether some village lies on a place.
pub open spec fn place_taken(villages: Seq<Village>, x: int, y: int) -> bool {
    exists|i: int| 0 <= i < villages.len() && (#[trigger] villages[i]).x == x && villages[i].y == y
}

/// Whether a user owns some village.
pub open spec fn owns_any(villages: Seq<Village>, user_id: u128) -> bool {
    exists|i: int| 0 <= i < villages.len() && (#[trigger] villages[i]).user_id == user_id
}

/// No two villages lie on the same place: the place is a function of the
/// village.
pub open spec fn unique_places(villages: Seq<Village>) -> bool {
    forall|i: int, j: int|
        0 <= i < villages.len() && 0 <= j < villages.len() && i != j ==> !((
        #[trigger] villages[i]).x == (#[trigger] villages[j]).x && villages[i].y == villages[j].y)
}

/// A village on a free place keeps the places of all villages apart.
pub proof fn lemma_new_village_keeps_places_unique(villages: Seq<Village>, v: Village)
    requires
        unique_places(villages),
        !place_taken(villages, v.x as int, v.y as int),
    ensures
        unique_places(villages.push(v)),
{
    let after = villages.push(v);
    assert forall|i: int, j: int|
        0 <= i < after.len() && 0 <= j < after.len() && i != j implies !((#[trigger] after[i]).x == (
        #[trigger] after[j]).x && after[i].y == after[j].y) by {
        if i < villages.len() && j < villages.len() {
            assert(after[i] == villages[i]);
            assert(after[j] == villages[j]);
        } else if i < villages.len() {
            assert(after[i] == villages[i]);
        } else {
            assert(after[j] == villages[j]);
        }
    }
}

/// The range that is shown for a range that is asked for.
pub open spec fn shown_range(range: int) -> int {
    if range > MAX_RANGE {
        MAX_RANGE as int
    } else if range < 1 {
        1
    } else {
        range
    }
}

/// Position of the first of the first `n` villages that lies on a place.
pub open spec fn first_at(villages: Seq<VillageMapInfo>, x: int, y: int, n: int) -> Option<int>
    decreases n,
{
    if n <= 0 {
        None
    } else {
        match first_at(villages, x, y, n - 1) {
            Some(i) => Some(i),
            None => if villages[n - 1].x == x && villages[n - 1].y == y {
                Some(n - 1)
            } else {
                None
            },
        }
    }
}

pub proof fn lemma_first_at_stays(villages: Seq<VillageMapInfo>, x: int, y: int, n: int, m: int)
    requires
        0 <= n <= m <= villages.len(),
        first_at(villages, x, y, n).is_some(),
    ensures
        first_at(villages, x, y, m) == first_at(villages, x, y, n),
    decreases m - n,
{
    if n < m {
        lemma_first_at_stays(villages, x, y, n, m - 1);
    }
}

/// The tile of a place, as a user sees it.
pub open spec fn tile_is(
    tile: MapTileResponse,
    x: int,
    y: int,
    villages: Seq<VillageMapInfo>,
    user_id: u128,
) -> bool {
    &&& tile.x == x
    &&& tile.y == y
    &&& match first_at(villages, x, y, villages.len() as int) {
        None => tile.village.is_none(),
        Some(i) => tile.village matches Some(info) && {
            &&& info.id == villages[i].id
            &&& info.name == villages[i].name
            &&& info.player_name == villages[i].player_name
            &&& info.population == villages[i].population
            &&& info.is_own == (villages[i].user_id == user_id)
        },
    }
}

fn tile_at(x: i32, y: i32, villages: &Vec<VillageMapInfo>, user_id: u128) -> (tile: MapTileResponse)
    ensures
        tile_is(tile, x as int, y as int, villages@, user_id),
{
    let mut i: usize = 0;
    while i < villages.len()
        invariant
            i <= villages.len(),
            first_at(villages@, x as int, y as int, i as int).is_none(),
        decreases villages.len() - i,
    {
        let v = &villages[i];
        if v.x == x && v.y == y {
            proof {
                lemma_first_at_stays(villages@, x as int, y as int, i as int + 1, villages.len() as int);
            }
            let player_name = match &v.player_name {
                Some(n) => Some(n.clone()),
                None => None,
            };
            return MapTileResponse {
                x,
                y,
                village: Some(
                    MapVillageInfo {
                        id: v.id,
                        name: v.name.clone(),
                        player_name,
                        population: v.population,
                        is_own: v.user_id == user_id,
                    },
                ),
            };
        }
        i = i + 1;
    }
    MapTileResponse { x, y, village: None }
}

impl VillageService {
    /// Decides the founding of a village: the place must be free, and the
    /// first village of a user is their capital.
    pub fn create_village(villages: &Vec<Village>, user_id: u128, request: CreateVillageRequest) -> (r:
        Result<CreateVillage, AppError>)
        ensures
            r.is_err() <==> place_taken(villages@, request.x as int, request.y as int),
            r matches Err(e) ==> e.is_conflict("Coordinates already occupied"@),
            r matches Ok(c) ==> {
                &&& c.user_id == user_id
                &&& c.name == request.name
                &&& c.x == request.x
                &&& c.y == request.y
                &&& c.is_capital == !owns_any(villages@, user_id)
            },
    {
        let mut owns = false;
        let mut i: usize = 0;
        while i < villages.len()
            invariant
                i <= villages.len(),
                forall|j: int|
                    0 <= j < i ==> !((#[trigger] villages@[j]).x == request.x && villages@[j].y
                        == request.y),
                owns == exists|j: int| 0 <= j < i && (#[trigger] villages@[j]).user_id == user_id,
            decreases villages.len() - i,
        {
            if villages[i].x == request.x && villages[i].y == request.y {
                return Err(AppError::conflict("Coordinates already occupied"));
            }
            if villages[i].user_id == user_id {
                owns = true;
            }
            i = i + 1;
        }
        Ok(
            CreateVillage {
                user_id,
                name: request.name,
                x: request.x,
                y: request.y,
                is_capital: !owns,
            },
        )
    }

    /// Renames a village of the user where a name is given.
    pub fn update_village(village: &mut Village, user_id: u128, request: UpdateVillageRequest) -> (r:
        Result<(), AppError>)
        ensures
            r.is_ok() <==> old(village).user_id == user_id,
            r matches Err(e) ==> e == AppError::Forbidden && *final(village) == *old(village),
            r.is_ok() ==> *final(village) == (Village {
                name: match request.name {
                    Some(n) => n,
                    None => old(village).name,
                },
                ..*old(village)
            }),
    {
        match ensure_owner(village.user_id, user_id) {
            Err(e) => {
                return Err(e);
            },
            Ok(_) => {},
        }
        match request.name {
            Some(n) => {
                village.name = n;
            },
            None => {},
        }
        Ok(())
    }

    /// The tiles of the map around a place, row by row from the lowest `y`
    /// and within each row from the lowest `x`. The range is at least 1 and
    /// at most 15.
    pub fn get_map(query: MapQuery, villages: &Vec<VillageMapInfo>, user_id: u128) -> (tiles: Vec<
        MapTileResponse,
    >)
        requires
            i32::MIN + MAX_RANGE <= query.x <= i32::MAX - MAX_RANGE,
            i32::MIN + MAX_RANGE <= query.y <= i32::MAX - MAX_RANGE,
        ensures
            ({
                let r = shown_range(query.range as int);
                let w = 2 * r + 1;
                &&& tiles@.len() == w * w
                &&& forall|k: int|
                    0 <= k < w * w ==> tile_is(
                        #[trigger] tiles@[k],
                        query.x - r + k % w,
                        query.y - r + k / w,
                        villages@,
                        user_id,
                    )
            }),
    {
        let range: i32 = if query.range > MAX_RANGE {
            MAX_RANGE
        } else if query.range < 1 {
            1
        } else {
            query.range
        };
        let w: i32 = 2 * range + 1;
        let mut tiles: Vec<MapTileResponse> = Vec::new();
        let mut row: i32 = 0;
        while row < w
            invariant
                1 <= range <= MAX_RANGE,
                w == 2 * range + 1,
                0 <= row <= w,
                i32::MIN + MAX_RANGE <= query.x <= i32::MAX - MAX_RANGE,
                i32::MIN + MAX_RANGE <= query.y <= i32::MAX - MAX_RANGE,
                tiles@.len() == row * w,
                forall|k: int|
                    0 <= k < row * w ==> tile_is(
                        #[trigger] tiles@[k],
                        query.x - range + k % (w as int),
                        query.y - range + k / (w as int),
                        villages@,
                        user_id,
                    ),
            decreases w - row,
        {
            let mut col: i32 = 0;
            while col < w
                invariant
                    1 <= range <= MAX_RANGE,
                    w == 2 * range + 1,
                    0 <= row < w,
                    0 <= col <= w,
                    i32::MIN + MAX_RANGE <= query.x <= i32::MAX - MAX_RANGE,
                    i32::MIN + MAX_RANGE <= query.y <= i32::MAX - MAX_RANGE,
                    tiles@.len() == row * w + col,
                    forall|k: int|
                        0 <= k < row * w + col ==> tile_is(
                            #[trigger] tiles@[k],
                            query.x - range + k % (w as int),
                            query.y - range + k / (w as int),
                            villages@,
                            user_id,
                        ),
                decreases w - col,
            {
                let x = query.x - range + col;
                let y = query.y - range + row;
                let tile = tile_at(x, y, villages, user_id);
                proof {
                    let k = row * w + col;
                    assert(k % (w as int) == col && k / (w as int) == row) by (nonlinear_arith)
                        requires
                            k == row * w + col,
                            0 <= col < w,
                            0 <= row,
                    ;
                }
                tiles.push(tile);
                col = col + 1;
            }
            assert(row * w + w == (row + 1) * w) by (nonlinear_arith);
            row = row + 1;
        }
        proof {
            assert(w * w == (2 * shown_range(query.range as int) + 1) * (2 * shown_range(
                query.range as int,
            ) + 1)) by (nonlinear_arith)
                requires
                    w == 2 * shown_range(query.range as int) + 1,
            ;
        }
        tiles
    }
}

} // verus!
