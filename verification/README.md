# road_tools

Two tools for a robot in a tile world, verified with Verus:

- `paving`: the road-paving machine. Started towards one direction, it either
  breaks the content of the tile beside the robot (`GET_STONES`) or lays the
  rocks that the tile's ground needs to become road (`MAKE_ROAD`).
- `radar`: a search of the rectangle ahead of the robot (three lines wide, as
  long as the reach) for the closest tile of a given ground, in views that
  grow from 2 tiles by 3 at a time up to the whole reach.
- `world`: the library's own copies of the world types (directions, grounds,
  contents, error kinds, tiles) and the generator of the small test world.

Both tools are state machines: they name the next world operation, and the
caller performs it and hands back what it reported. `app/` holds the programs
that drive them against the robot world.
