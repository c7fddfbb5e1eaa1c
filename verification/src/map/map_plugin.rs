use vstd::prelude::*;

verus! {

/// Width and height of the generated map in tiles.
pub const MAP_SIZE: usize = 128;

/// The tiles of the map's tile sheet that the map generation uses.
#[derive(Clone, Copy, Debug, PartialEq, Eq, Structural)]
pub enum TileSheetIndex {
    MiddleGrassTile,
    MiddleSandTile,
    Bush,
    DownGrassTile,
    LeftGrassTile,
    RightGrassTile,
    TopGrassTile,
}

impl TileSheetIndex {
    /// The position of the tile in the tile sheet.
    pub fn sheet_index(&self) -> (i: usize)
        ensures
            i == (match self {
                TileSheetIndex::MiddleGrassTile => 113usize,
                TileSheetIndex::MiddleSandTile => 117usize,
                TileSheetIndex::Bush => 1078usize,
                TileSheetIndex::DownGrassTile => 1182usize,
                TileSheetIndex::LeftGrassTile => 1183usize,
                TileSheetIndex::RightGrassTile => 1238usize,
                TileSheetIndex::TopGrassTile => 1239usize,
            }),
    {
        match self {
            TileSheetIndex::MiddleGrassTile => 113,
            TileSheetIndex::MiddleSandTile => 117,
            TileSheetIndex::Bush => 1078,
            TileSheetIndex::DownGrassTile => 1182,
            TileSheetIndex::LeftGrassTile => 1183,
            TileSheetIndex::RightGrassTile => 1238,
            TileSheetIndex::TopGrassTile => 1239,
        }
    }
}

/// The edge tile `tile` at `(x, y)` where `cond` holds, nothing otherwise.
pub open spec fn edge_if(cond: bool, x: int, y: int, tile: TileSheetIndex) -> Seq<(usize, usize, TileSheetIndex)> {
    if cond {
        seq![(x as usize, y as usize, tile)]
    } else {
        seq![]
    }
}

/// The rounded edges at `(x, y)`: a sand tile gets a grass edge towards
/// every grass neighbour, in the order below (`y + 1`), above (`y - 1`),
/// right (`x + 1`) and left (`x - 1`).
pub open spec fn edges_at(ground: Seq<Seq<TileSheetIndex>>, x: int, y: int) -> Seq<(usize, usize, TileSheetIndex)> {
    if ground[x][y] == TileSheetIndex::MiddleSandTile {
        edge_if(ground[x][y + 1] == TileSheetIndex::MiddleGrassTile, x, y, TileSheetIndex::DownGrassTile)
            + edge_if(
            y > 0 && ground[x][y - 1] == TileSheetIndex::MiddleGrassTile,
            x,
            y,
            TileSheetIndex::TopGrassTile,
        ) + edge_if(
            ground[x + 1][y] == TileSheetIndex::MiddleGrassTile,
            x,
            y,
            TileSheetIndex::LeftGrassTile,
        ) + edge_if(
            x > 0 && ground[x - 1][y] == TileSheetIndex::MiddleGrassTile,
            x,
            y,
            TileSheetIndex::RightGrassTile,
        )
    } else {
        seq![]
    }
}

/// The rounded edges of the first `n` positions of the map, column by
/// column.
pub open spec fn edges_before(ground: Seq<Seq<TileSheetIndex>>, n: nat) -> Seq<(usize, usize, TileSheetIndex)>
    decreases n,
{
    if n == 0 {
        seq![]
    } else {
        let k = n - 1;
        edges_before(ground, (n - 1) as nat) + edges_at(ground, k / MAP_SIZE as int, k % MAP_SIZE as int)
    }
}

/// Whether the layer of rounded edges has `tile` at `(x, y)`: the ground
/// there is sand and the neighbour on the side of the tile is grass.
spec fn edge_wanted(g: Seq<Seq<TileSheetIndex>>, x: int, y: int, tile: TileSheetIndex) -> bool {
    &&& g[x][y] == TileSheetIndex::MiddleSandTile
    &&& match tile {
        TileSheetIndex::DownGrassTile => g[x][y + 1] == TileSheetIndex::MiddleGrassTile,
        TileSheetIndex::TopGrassTile => y > 0 && g[x][y - 1] == TileSheetIndex::MiddleGrassTile,
        TileSheetIndex::LeftGrassTile => g[x + 1][y] == TileSheetIndex::MiddleGrassTile,
        TileSheetIndex::RightGrassTile => x > 0 && g[x - 1][y] == TileSheetIndex::MiddleGrassTile,
        _ => false,
    }
}

proof fn lemma_edge_if_contains(
    cond: bool,
    x: int,
    y: int,
    tile: TileSheetIndex,
    e: (usize, usize, TileSheetIndex),
)
    ensures
        edge_if(cond, x, y, tile).contains(e) <==> cond && e == (x as usize, y as usize, tile),
{
    if cond && e == (x as usize, y as usize, tile) {
        assert(edge_if(cond, x, y, tile)[0] == e);
    }
}

proof fn lemma_edges_at_contains(g: Seq<Seq<TileSheetIndex>>, x: int, y: int, e: (usize, usize, TileSheetIndex))
    requires
        0 <= x < MAP_SIZE,
        0 <= y < MAP_SIZE,
    ensures
        edges_at(g, x, y).contains(e) <==> e.0 == x && e.1 == y && edge_wanted(g, x, y, e.2),
{
    broadcast use vstd::seq_lib::lemma_seq_concat_contains_all_elements;

    if g[x][y] == TileSheetIndex::MiddleSandTile {
        lemma_edge_if_contains(
            g[x][y + 1] == TileSheetIndex::MiddleGrassTile,
            x,
            y,
            TileSheetIndex::DownGrassTile,
            e,
        );
        lemma_edge_if_contains(
            y > 0 && g[x][y - 1] == TileSheetIndex::MiddleGrassTile,
            x,
            y,
            TileSheetIndex::TopGrassTile,
            e,
        );
        lemma_edge_if_contains(
            g[x + 1][y] == TileSheetIndex::MiddleGrassTile,
            x,
            y,
            TileSheetIndex::LeftGrassTile,
            e,
        );
        lemma_edge_if_contains(
            x > 0 && g[x - 1][y] == TileSheetIndex::MiddleGrassTile,
            x,
            y,
            TileSheetIndex::RightGrassTile,
            e,
        );
    }
}

proof fn lemma_edges_before_contains(g: Seq<Seq<TileSheetIndex>>, n: nat, e: (usize, usize, TileSheetIndex))
    requires
        n <= MAP_SIZE * MAP_SIZE,
    ensures
        edges_before(g, n).contains(e) <==> {
            &&& e.0 < MAP_SIZE
            &&& e.1 < MAP_SIZE
            &&& e.0 * MAP_SIZE + e.1 < n
            &&& edge_wanted(g, e.0 as int, e.1 as int, e.2)
        },
    decreases n,
{
    broadcast use vstd::seq_lib::lemma_seq_concat_contains_all_elements;

    if n > 0 {
        let k = n - 1;
        let m = MAP_SIZE as int;
        lemma_edges_before_contains(g, (n - 1) as nat, e);
        vstd::arithmetic::div_mod::lemma_fundamental_div_mod(k, m);
        assert(0 <= k % m < m);
        lemma_edges_at_contains(g, k / m, k % m, e);
        if e.0 < MAP_SIZE && e.1 < MAP_SIZE && e.0 * MAP_SIZE + e.1 == k {
            vstd::arithmetic::div_mod::lemma_fundamental_div_mod_converse(k, m, e.0 as int, e.1 as int);
        }
    }
}

/// Where the layer of rounded edges puts its tiles: it holds the edge
/// `tile` at `(x, y)` exactly when `(x, y)` lies inside the map, the ground
/// there is sand, and the neighbour on the side of the tile is grass:
/// `DownGrassTile` for grass at `y + 1`, `TopGrassTile` for grass at
/// `y - 1`, `LeftGrassTile` for grass at `x + 1` and `RightGrassTile` for
/// grass at `x - 1`. No other tile is an edge.
pub proof fn lemma_rounded_edges_placement(
    g: Seq<Seq<TileSheetIndex>>,
    x: usize,
    y: usize,
    tile: TileSheetIndex,
)
    ensures
        edges_before(g, (MAP_SIZE * MAP_SIZE) as nat).contains((x, y, tile)) <==> {
            &&& x < MAP_SIZE
            &&& y < MAP_SIZE
            &&& g[x as int][y as int] == TileSheetIndex::MiddleSandTile
            &&& match tile {
                TileSheetIndex::DownGrassTile => g[x as int][y + 1] == TileSheetIndex::MiddleGrassTile,
                TileSheetIndex::TopGrassTile => y > 0 && g[x as int][y - 1]
                    == TileSheetIndex::MiddleGrassTile,
                TileSheetIndex::LeftGrassTile => g[x + 1][y as int] == TileSheetIndex::MiddleGrassTile,
                TileSheetIndex::RightGrassTile => x > 0 && g[x - 1][y as int]
                    == TileSheetIndex::MiddleGrassTile,
                _ => false,
            }
        },
{
    lemma_edges_before_contains(g, (MAP_SIZE * MAP_SIZE) as nat, (x, y, tile));
}

/// The place of an edge tile among the edges of one position: below,
/// above, right neighbour, left neighbour.
pub open spec fn edge_rank(tile: TileSheetIndex) -> int {
    match tile {
        TileSheetIndex::DownGrassTile => 0,
        TileSheetIndex::TopGrassTile => 1,
        TileSheetIndex::LeftGrassTile => 2,
        _ => 3,
    }
}

spec fn edge_key(e: (usize, usize, TileSheetIndex)) -> int {
    (e.0 * MAP_SIZE + e.1) * 4 + edge_rank(e.2)
}

spec fn keys_increase(s: Seq<(usize, usize, TileSheetIndex)>) -> bool {
    forall|i: int, j: int| 0 <= i < j < s.len() ==> edge_key(#[trigger] s[i]) < edge_key(#[trigger] s[j])
}

spec fn keys_within(s: Seq<(usize, usize, TileSheetIndex)>, lo: int, hi: int) -> bool {
    forall|i: int| 0 <= i < s.len() ==> lo <= #[trigger] edge_key(s[i]) < hi
}

proof fn lemma_keys_concat(
    a: Seq<(usize, usize, TileSheetIndex)>,
    b: Seq<(usize, usize, TileSheetIndex)>,
    lo: int,
    mid: int,
    hi: int,
)
    requires
        lo <= mid <= hi,
        keys_increase(a),
        keys_increase(b),
        keys_within(a, lo, mid),
        keys_within(b, mid, hi),
    ensures
        keys_increase(a + b),
        keys_within(a + b, lo, hi),
{
    let s = a + b;
    assert forall|i: int, j: int| 0 <= i < j < s.len() implies edge_key(#[trigger] s[i]) < edge_key(
        #[trigger] s[j],
    ) by {
        if j < a.len() {
            assert(s[i] == a[i] && s[j] == a[j]);
        } else if i < a.len() {
            assert(s[i] == a[i] && s[j] == b[j - a.len()]);
            assert(edge_key(a[i]) < mid);
            assert(mid <= edge_key(b[j - a.len()]));
        } else {
            assert(s[i] == b[i - a.len()] && s[j] == b[j - a.len()]);
        }
    }
    assert forall|i: int| 0 <= i < s.len() implies lo <= #[trigger] edge_key(s[i]) < hi by {
        if i < a.len() {
            assert(s[i] == a[i]);
            assert(lo <= edge_key(a[i]) < mid);
        } else {
            assert(s[i] == b[i - a.len()]);
            assert(mid <= edge_key(b[i - a.len()]) < hi);
        }
    }
}

proof fn lemma_edges_at_keys(g: Seq<Seq<TileSheetIndex>>, x: int, y: int)
    requires
        0 <= x < MAP_SIZE,
        0 <= y < MAP_SIZE,
    ensures
        keys_increase(edges_at(g, x, y)),
        keys_within(edges_at(g, x, y), (x * MAP_SIZE + y) * 4, (x * MAP_SIZE + y) * 4 + 4),
{
    let p = (x * MAP_SIZE + y) * 4;
    if g[x][y] == TileSheetIndex::MiddleSandTile {
        let d = edge_if(g[x][y + 1] == TileSheetIndex::MiddleGrassTile, x, y, TileSheetIndex::DownGrassTile);
        let t = edge_if(
            y > 0 && g[x][y - 1] == TileSheetIndex::MiddleGrassTile,
            x,
            y,
            TileSheetIndex::TopGrassTile,
        );
        let l = edge_if(g[x + 1][y] == TileSheetIndex::MiddleGrassTile, x, y, TileSheetIndex::LeftGrassTile);
        let r = edge_if(
            x > 0 && g[x - 1][y] == TileSheetIndex::MiddleGrassTile,
            x,
            y,
            TileSheetIndex::RightGrassTile,
        );
        assert(keys_within(d, p, p + 1));
        assert(keys_within(t, p + 1, p + 2));
        assert(keys_within(l, p + 2, p + 3));
        assert(keys_within(r, p + 3, p + 4));
        assert(keys_increase(d) && keys_increase(t) && keys_increase(l) && keys_increase(r));
        lemma_keys_concat(d, t, p, p + 1, p + 2);
        lemma_keys_concat(d + t, l, p, p + 2, p + 3);
        lemma_keys_concat(d + t + l, r, p, p + 3, p + 4);
    }
}

proof fn lemma_edges_before_keys(g: Seq<Seq<TileSheetIndex>>, n: nat)
    requires
        n <= MAP_SIZE * MAP_SIZE,
    ensures
        keys_increase(edges_before(g, n)),
        keys_within(edges_before(g, n), 0, (n * 4) as int),
    decreases n,
{
    if n > 0 {
        let k = n - 1;
        let m = MAP_SIZE as int;
        lemma_edges_before_keys(g, (n - 1) as nat);
        vstd::arithmetic::div_mod::lemma_fundamental_div_mod(k, m);
        assert(0 <= k % m < m);
        lemma_edges_at_keys(g, k / m, k % m);
        assert((k / m * MAP_SIZE + k % m) == k);
        lemma_keys_concat(edges_before(g, (n - 1) as nat), edges_at(g, k / m, k % m), 0, k * 4, (n * 4) as int);
    }
}

/// The order of the layer of rounded edges: column by column (`x` first),
/// down each column (`y` next), and at one position in the order
/// `DownGrassTile`, `TopGrassTile`, `LeftGrassTile`, `RightGrassTile`, so
/// that no edge appears twice.
pub proof fn lemma_rounded_edges_order(g: Seq<Seq<TileSheetIndex>>, i: int, j: int)
    requires
        0 <= i < j < edges_before(g, (MAP_SIZE * MAP_SIZE) as nat).len(),
    ensures
        ({
            let a = edges_before(g, (MAP_SIZE * MAP_SIZE) as nat)[i];
            let b = edges_before(g, (MAP_SIZE * MAP_SIZE) as nat)[j];
            ||| a.0 < b.0
            ||| a.0 == b.0 && a.1 < b.1
            ||| a.0 == b.0 && a.1 == b.1 && edge_rank(a.2) < edge_rank(b.2)
        }),
{
    let s = edges_before(g, (MAP_SIZE * MAP_SIZE) as nat);
    lemma_edges_before_keys(g, (MAP_SIZE * MAP_SIZE) as nat);
    assert(s.contains(s[i]) && s.contains(s[j]));
    lemma_edges_before_contains(g, (MAP_SIZE * MAP_SIZE) as nat, s[i]);
    lemma_edges_before_contains(g, (MAP_SIZE * MAP_SIZE) as nat, s[j]);
    assert(edge_key(s[i]) < edge_key(s[j]));
}

fn push_edge_if(
    edges: &mut Vec<(usize, usize, TileSheetIndex)>,
    cond: bool,
    x: usize,
    y: usize,
    tile: TileSheetIndex,
)
    ensures
        final(edges)@ == old(edges)@ + edge_if(cond, x as int, y as int, tile),
{
    if cond {
        edges.push((x, y, tile));
    }
    assert(edges@ =~= old(edges)@ + edge_if(cond, x as int, y as int, tile));
}

/// The layer of rounded grass edges on sand, given the ground tile of every
/// position, as `(x, y, tile)` column by column.
pub fn rounded_edges_layer(ground: &Vec<Vec<TileSheetIndex>>) -> (edges: Vec<(usize, usize, TileSheetIndex)>)
    requires
        ground@.len() == MAP_SIZE + 1,
        forall|x: int| 0 <= x <= MAP_SIZE ==> #[trigger] ground@[x]@.len() == MAP_SIZE + 1,
    ensures
        edges@ == edges_before(ground@.map_values(|row: Vec<TileSheetIndex>| row@), (MAP_SIZE * MAP_SIZE) as nat),
{
    let ghost g = ground@.map_values(|row: Vec<TileSheetIndex>| row@);
    let mut edges: Vec<(usize, usize, TileSheetIndex)> = Vec::new();
    let mut x: usize = 0;
    while x < MAP_SIZE
        invariant
            x <= MAP_SIZE,
            g == ground@.map_values(|row: Vec<TileSheetIndex>| row@),
            ground@.len() == MAP_SIZE + 1,
            forall|i: int| 0 <= i <= MAP_SIZE ==> #[trigger] ground@[i]@.len() == MAP_SIZE + 1,
            edges@ == edges_before(g, (x * MAP_SIZE) as nat),
        decreases MAP_SIZE - x,
    {
        let mut y: usize = 0;
        while y < MAP_SIZE
            invariant
                x < MAP_SIZE,
                y <= MAP_SIZE,
                g == ground@.map_values(|row: Vec<TileSheetIndex>| row@),
                ground@.len() == MAP_SIZE + 1,
                forall|i: int| 0 <= i <= MAP_SIZE ==> #[trigger] ground@[i]@.len() == MAP_SIZE + 1,
                edges@ == edges_before(g, (x * MAP_SIZE + y) as nat),
            decreases MAP_SIZE - y,
        {
            let ghost before = edges@;
            proof {
                let k = (x * MAP_SIZE + y) as int;
                vstd::arithmetic::div_mod::lemma_fundamental_div_mod_converse(
                    k,
                    MAP_SIZE as int,
                    x as int,
                    y as int,
                );
                assert(g[x as int] == ground@[x as int]@);
                assert(g[x as int + 1] == ground@[x as int + 1]@);
                if x > 0 {
                    assert(g[x as int - 1] == ground@[x as int - 1]@);
                }
            }
            if ground[x][y] == TileSheetIndex::MiddleSandTile {
                push_edge_if(
                    &mut edges,
                    ground[x][y + 1] == TileSheetIndex::MiddleGrassTile,
                    x,
                    y,
                    TileSheetIndex::DownGrassTile,
                );
                push_edge_if(
                    &mut edges,
                    y > 0 && ground[x][y - 1] == TileSheetIndex::MiddleGrassTile,
                    x,
                    y,
                    TileSheetIndex::TopGrassTile,
                );
                push_edge_if(
                    &mut edges,
                    ground[x + 1][y] == TileSheetIndex::MiddleGrassTile,
                    x,
                    y,
                    TileSheetIndex::LeftGrassTile,
                );
                push_edge_if(
                    &mut edges,
                    x > 0 && ground[x - 1][y] == TileSheetIndex::MiddleGrassTile,
                    x,
                    y,
                    TileSheetIndex::RightGrassTile,
                );
            }
            assert(edges@ =~= before + edges_at(g, x as int, y as int));
            y = y + 1;
        }
        x = x + 1;
    }
    edges
}

} // verus!
